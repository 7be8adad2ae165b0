//! Schedule rows, the interval of time each one covers, and the window of time
//! that a schedule query asks about.

use crate::instant::{Instant, InstantView, MAX_SECONDS, SECONDS_PER_HOUR};
use vstd::prelude::*;

verus! {

/// One end of an interval of time.
#[derive(Debug)]
pub enum Bound {
    /// The interval reaches the instant and contains it.
    Included(Instant),
    /// The interval reaches the instant and does not contain it.
    Excluded(Instant),
    /// The interval has no limit on this side.
    Unbounded,
}

/// The interval during which a vendor serves at a brewery.
#[derive(Debug)]
pub struct OpenHours {
    pub start: Bound,
    pub end: Bound,
}

/// One schedule entry as stored, with the names of its brewery and vendor.
#[derive(Debug)]
pub struct ScheduleRow {
    pub id: u128,
    pub brewery_id: u128,
    pub brewery_name: String,
    pub food_vendor_id: u128,
    pub food_vendor_name: String,
    pub open_hours: OpenHours,
    pub source: String,
    pub updated_at: Instant,
}

/// What a [`ScheduleWindow`] spans.
pub struct ScheduleWindowView {
    pub start: InstantView,
    pub end: InstantView,
}

/// The interval of time that a schedule query asks about: from `start` up
/// to, and without, `end`, which lies a whole number of hours later.
#[derive(Clone, Copy, Debug)]
pub struct ScheduleWindow {
    start: Instant,
    end: Instant,
}

impl View for ScheduleWindow {
    type V = ScheduleWindowView;

    closed spec fn view(&self) -> ScheduleWindowView {
        ScheduleWindowView { start: self.start@, end: self.end@ }
    }
}

/// Whether `end` lies a whole number of hours after `start`.
pub open spec fn whole_hours_apart(start: InstantView, end: InstantView) -> bool {
    &&& start.seconds <= end.seconds
    &&& (end.seconds - start.seconds) % (SECONDS_PER_HOUR as int) == 0
    &&& start.nanoseconds == end.nanoseconds
}

impl ScheduleWindow {
    #[verifier::type_invariant]
    spec fn ordered(self) -> bool {
        whole_hours_apart(self.start@, self.end@)
    }

    /// The window of `duration_hours` whole hours that starts at `start`, if
    /// its end is representable.
    pub fn starting_at(start: Instant, duration_hours: u64) -> (r: Option<ScheduleWindow>)
        ensures
            r is Some <==> start@.seconds + duration_hours * SECONDS_PER_HOUR <= MAX_SECONDS,
            r matches Some(window) ==> window@ == (ScheduleWindowView {
                start: start@,
                end: InstantView {
                    seconds: start@.seconds + duration_hours * SECONDS_PER_HOUR,
                    nanoseconds: start@.nanoseconds,
                },
            }),
    {
        match start.plus_hours(duration_hours) {
            Some(end) => Some(ScheduleWindow { start, end }),
            None => None,
        }
    }

    /// The instant at which the window starts, which belongs to it.
    pub fn start(&self) -> (r: Instant)
        ensures
            r@ == self@.start,
            whole_hours_apart(self@.start, self@.end),
    {
        proof {
            use_type_invariant(self);
        }
        self.start
    }

    /// The instant at which the window ends, which does not belong to it.
    pub fn end(&self) -> (r: Instant)
        ensures
            r@ == self@.end,
            whole_hours_apart(self@.start, self@.end),
    {
        proof {
            use_type_invariant(self);
        }
        self.end
    }
}

} // verus!
