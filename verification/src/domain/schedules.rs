//! Schedule entries as they are reported: names, identifiers and the interval
//! as RFC 3339 texts.

use crate::db::{Bound, ScheduleRow};
use crate::domain::{
    first_defect, first_defect_at, lemma_defect_has_first, lemma_first_defect, no_defect,
};
use crate::domain::breweries::BREWERY_NAME_EMPTY;
use crate::domain::vendors::VENDOR_NAME_EMPTY;
use crate::instant::{rfc3339_text, Instant};
use vstd::prelude::*;

verus! {

/// The defect of a row whose interval has no start.
pub const START_UNBOUNDED: &'static str = "schedule open_hours start is unbounded";

/// The defect of a row whose interval has no end.
pub const END_UNBOUNDED: &'static str = "schedule open_hours end is unbounded";

/// What a [`Schedule`] reports.
pub struct ScheduleView {
    pub brewery_name: Seq<char>,
    pub brewery_id: u128,
    pub vendor_name: Seq<char>,
    pub vendor_id: u128,
    pub start_at: Seq<char>,
    pub end_at: Seq<char>,
    pub updated_at: Seq<char>,
}

/// One schedule entry of a response. Both names are non-empty.
#[derive(Debug)]
pub struct Schedule {
    brewery_name: String,
    brewery_id: u128,
    vendor_name: String,
    vendor_id: u128,
    start_at: String,
    end_at: String,
    updated_at: String,
}

impl View for Schedule {
    type V = ScheduleView;

    closed spec fn view(&self) -> ScheduleView {
        ScheduleView {
            brewery_name: self.brewery_name@,
            brewery_id: self.brewery_id,
            vendor_name: self.vendor_name@,
            vendor_id: self.vendor_id,
            start_at: self.start_at@,
            end_at: self.end_at@,
            updated_at: self.updated_at@,
        }
    }
}

/// The instant at which a bound lies, whether or not the interval contains
/// it.
pub open spec fn bound_instant(bound: Bound) -> Option<Instant> {
    match bound {
        Bound::Included(instant) => Some(instant),
        Bound::Excluded(instant) => Some(instant),
        Bound::Unbounded => None,
    }
}

/// The RFC 3339 text of an instant.
pub open spec fn instant_text(instant: Instant) -> Seq<char> {
    rfc3339_text(instant@.seconds, instant@.nanoseconds)
}

/// What is wrong with a row, if anything. The brewery name is looked at
/// first, then the vendor name, the start of the interval and its end.
pub open spec fn row_defect(row: ScheduleRow) -> Option<Seq<char>> {
    if row.brewery_name@.len() == 0 {
        Some(BREWERY_NAME_EMPTY@)
    } else if row.food_vendor_name@.len() == 0 {
        Some(VENDOR_NAME_EMPTY@)
    } else if row.open_hours.start is Unbounded {
        Some(START_UNBOUNDED@)
    } else if row.open_hours.end is Unbounded {
        Some(END_UNBOUNDED@)
    } else {
        None
    }
}

/// The entry that a row without defect is reported as.
pub open spec fn schedule_of(row: ScheduleRow) -> ScheduleView
    recommends
        row_defect(row) is None,
{
    ScheduleView {
        brewery_name: row.brewery_name@,
        brewery_id: row.brewery_id,
        vendor_name: row.food_vendor_name@,
        vendor_id: row.food_vendor_id,
        start_at: instant_text(bound_instant(row.open_hours.start)->0),
        end_at: instant_text(bound_instant(row.open_hours.end)->0),
        updated_at: instant_text(row.updated_at),
    }
}

impl Schedule {
    #[verifier::type_invariant]
    spec fn named(self) -> bool {
        self.brewery_name@.len() > 0 && self.vendor_name@.len() > 0
    }

    /// Maps one row: the entry it is reported as, or its defect.
    pub fn try_from(value: ScheduleRow) -> (r: Result<Schedule, &'static str>)
        ensures
            match r {
                Ok(schedule) => row_defect(value) is None && schedule@ == schedule_of(value),
                Err(defect) => row_defect(value) == Some(defect@),
            },
    {
        if value.brewery_name.as_str().is_empty() {
            return Err(BREWERY_NAME_EMPTY);
        }
        if value.food_vendor_name.as_str().is_empty() {
            return Err(VENDOR_NAME_EMPTY);
        }
        let open_hours = value.open_hours;

        let start_at = match open_hours.start {
            Bound::Included(ts) | Bound::Excluded(ts) => ts.to_rfc3339(),
            Bound::Unbounded => return Err(START_UNBOUNDED),
        };

        let end_at = match open_hours.end {
            Bound::Included(ts) | Bound::Excluded(ts) => ts.to_rfc3339(),
            Bound::Unbounded => return Err(END_UNBOUNDED),
        };

        Ok(
            Schedule {
                brewery_name: value.brewery_name,
                brewery_id: value.brewery_id,
                vendor_name: value.food_vendor_name,
                vendor_id: value.food_vendor_id,
                start_at,
                end_at,
                updated_at: value.updated_at.to_rfc3339(),
            },
        )
    }

    /// The name of the brewery, which is not empty.
    pub fn brewery_name(&self) -> (r: &str)
        ensures
            r@ == self@.brewery_name,
            r@.len() > 0,
    {
        proof {
            use_type_invariant(self);
        }
        self.brewery_name.as_str()
    }

    /// The identifier of the brewery.
    pub fn brewery_id(&self) -> (r: u128)
        ensures
            r == self@.brewery_id,
    {
        self.brewery_id
    }

    /// The name of the vendor, which is not empty.
    pub fn vendor_name(&self) -> (r: &str)
        ensures
            r@ == self@.vendor_name,
            r@.len() > 0,
    {
        proof {
            use_type_invariant(self);
        }
        self.vendor_name.as_str()
    }

    /// The identifier of the vendor.
    pub fn vendor_id(&self) -> (r: u128)
        ensures
            r == self@.vendor_id,
    {
        self.vendor_id
    }

    /// The start of the interval as RFC 3339 text.
    pub fn start_at(&self) -> (r: &str)
        ensures
            r@ == self@.start_at,
    {
        self.start_at.as_str()
    }

    /// The end of the interval as RFC 3339 text.
    pub fn end_at(&self) -> (r: &str)
        ensures
            r@ == self@.end_at,
    {
        self.end_at.as_str()
    }

    /// When the entry was last updated, as RFC 3339 text.
    pub fn updated_at(&self) -> (r: &str)
        ensures
            r@ == self@.updated_at,
    {
        self.updated_at.as_str()
    }
}

/// The defect of each row of a batch.
pub open spec fn defects_of(rows: Seq<ScheduleRow>) -> Seq<Option<Seq<char>>> {
    rows.map_values(|row: ScheduleRow| row_defect(row))
}

/// What mapping a batch of rows comes to: where no row has a defect, the
/// entries of the rows in their order; else the defect of the first row
/// that has one, and no entry at all.
pub open spec fn listing_of(rows: Seq<ScheduleRow>) -> Result<Seq<ScheduleView>, Seq<char>> {
    if no_defect(defects_of(rows)) {
        Ok(rows.map_values(|row: ScheduleRow| schedule_of(row)))
    } else {
        Err(first_defect(defects_of(rows)))
    }
}

/// One row with a defect fails the whole batch, whatever the other rows
/// hold: the outcome is the defect of the first such row, which lies no
/// later, and no entry is listed.
pub proof fn lemma_defect_fails_batch(rows: Seq<ScheduleRow>, index: int) -> (first: int)
    requires
        0 <= index < rows.len(),
        row_defect(rows[index]) is Some,
    ensures
        0 <= first <= index,
        first_defect_at(defects_of(rows), first),
        listing_of(rows) == Err::<Seq<ScheduleView>, Seq<char>>(row_defect(rows[first])->0),
{
    let first: int = lemma_defect_has_first(defects_of(rows), index);
    lemma_first_defect(defects_of(rows), first);
    first
}

/// A listing holds one entry for each row, in the order of the rows, and
/// exists only where no row has a defect.
pub proof fn lemma_listing_in_order(rows: Seq<ScheduleRow>)
    requires
        listing_of(rows) is Ok,
    ensures
        listing_of(rows)->Ok_0.len() == rows.len(),
        forall|i: int|
            0 <= i < rows.len() ==> {
                &&& row_defect(#[trigger] rows[i]) is None
                &&& listing_of(rows)->Ok_0[i] == schedule_of(rows[i])
            },
{
    assert forall|i: int| 0 <= i < rows.len() implies row_defect(#[trigger] rows[i]) is None by {
        assert(defects_of(rows)[i] is None);
    }
}

/// The schedule entries of one response, in the order of their rows.
#[derive(Debug)]
pub struct VendorSchedules {
    schedules: Vec<Schedule>,
}

impl View for VendorSchedules {
    type V = Seq<ScheduleView>;

    closed spec fn view(&self) -> Seq<ScheduleView> {
        self.schedules@.map_values(|schedule: Schedule| schedule@)
    }
}

impl VendorSchedules {
    /// Maps all rows or none: the entries of the rows in their order, or the
    /// defect of the first row that has one.
    pub fn try_from(value: Vec<ScheduleRow>) -> (r: Result<VendorSchedules, &'static str>)
        ensures
            match r {
                Ok(listing) => listing_of(value@) == Ok::<Seq<ScheduleView>, Seq<char>>(listing@),
                Err(defect) => listing_of(value@) == Err::<Seq<ScheduleView>, Seq<char>>(defect@),
            },
    {
        let mut schedules: Vec<Schedule> = Vec::new();
        for row in rows: value
            invariant
                rows.seq() == value@,
                schedules@.len() == rows.index(),
                forall|i: int|
                    0 <= i < rows.index() ==> {
                        &&& row_defect(#[trigger] value@[i]) is None
                        &&& schedules@[i]@ == schedule_of(value@[i])
                    },
        {
            match Schedule::try_from(row) {
                Ok(schedule) => schedules.push(schedule),
                Err(defect) => {
                    proof {
                        lemma_first_defect(defects_of(value@), rows.index() as int);
                    }
                    return Err(defect);
                },
            }
        }
        let listing = VendorSchedules { schedules };
        assert(listing@ =~= value@.map_values(|row: ScheduleRow| schedule_of(row)));
        Ok(listing)
    }

    /// The entries in order.
    pub fn schedules(&self) -> (r: &Vec<Schedule>)
        ensures
            r@.map_values(|schedule: Schedule| schedule@) == self@,
    {
        &self.schedules
    }
}

/// Lists the schedule entries from what the store returned for a window: its
/// rows mapped all or none, or the cause of its failure as it stands.
pub fn get_schedules(fetched: Result<Vec<ScheduleRow>, String>) -> (r: Result<
    VendorSchedules,
    String,
>)
    ensures
        match fetched {
            Err(cause) => r matches Err(failure) && failure@ == cause@,
            Ok(rows) => match r {
                Ok(listing) => listing_of(rows@) == Ok::<Seq<ScheduleView>, Seq<char>>(listing@),
                Err(failure) => listing_of(rows@) == Err::<Seq<ScheduleView>, Seq<char>>(
                    failure@,
                ),
            },
        },
{
    let rows = match fetched {
        Ok(rows) => rows,
        Err(cause) => return Err(cause),
    };
    match VendorSchedules::try_from(rows) {
        Ok(listing) => Ok(listing),
        Err(defect) => Err(defect.to_owned()),
    }
}

} // verus!
