//! Instants on the UTC time line, at nanosecond precision.

use vstd::prelude::*;

verus! {

/// The first representable second: 00:00:00 on 1 January of the year -262143.
pub const MIN_SECONDS: i64 = -8_334_601_228_800;

/// The last representable second: 23:59:59 on 31 December of the year 262142.
pub const MAX_SECONDS: i64 = 8_210_266_876_799;

/// Nanoseconds in one second.
pub const NANOS_PER_SECOND: u32 = 1_000_000_000;

/// Seconds in one hour.
pub const SECONDS_PER_HOUR: i64 = 3_600;

/// What an [`Instant`] stands for: whole seconds since 1970-01-01T00:00:00Z,
/// rounded down, and the nanoseconds that follow them.
pub struct InstantView {
    pub seconds: int,
    pub nanoseconds: int,
}

/// Whether a pair of seconds and nanoseconds denotes an instant.
///
/// The nanoseconds stay below one second, except that the last second of a
/// minute may carry up to one more second of them to denote a leap second.
pub open spec fn representable(seconds: int, nanoseconds: int) -> bool {
    &&& MIN_SECONDS <= seconds <= MAX_SECONDS
    &&& 0 <= nanoseconds < 2 * NANOS_PER_SECOND
    &&& nanoseconds >= NANOS_PER_SECOND ==> seconds % 60 == 59
}

/// An instant between the years -262143 and 262142.
#[derive(Clone, Copy, Debug)]
pub struct Instant {
    seconds: i64,
    nanoseconds: u32,
}

impl View for Instant {
    type V = InstantView;

    closed spec fn view(&self) -> InstantView {
        InstantView { seconds: self.seconds as int, nanoseconds: self.nanoseconds as int }
    }
}

impl Instant {
    #[verifier::type_invariant]
    spec fn well_formed(self) -> bool {
        representable(self.seconds as int, self.nanoseconds as int)
    }

    /// The instant `nanoseconds` after the whole second `seconds`, if there
    /// is one.
    pub fn new(seconds: i64, nanoseconds: u32) -> (r: Option<Instant>)
        ensures
            r is Some <==> representable(seconds as int, nanoseconds as int),
            r matches Some(t) ==> t@ == (InstantView {
                seconds: seconds as int,
                nanoseconds: nanoseconds as int,
            }),
    {
        if seconds < MIN_SECONDS || seconds > MAX_SECONDS || nanoseconds >= 2_000_000_000 {
            return None;
        }
        if nanoseconds >= NANOS_PER_SECOND && seconds.checked_rem_euclid(60) != Some(59) {
            return None;
        }
        Some(Instant { seconds, nanoseconds })
    }

    /// Whole seconds since the epoch, rounded down.
    pub fn seconds(&self) -> (r: i64)
        ensures
            r == self@.seconds,
            representable(self@.seconds, self@.nanoseconds),
    {
        proof {
            use_type_invariant(self);
        }
        self.seconds
    }

    /// Nanoseconds past the whole second.
    pub fn nanoseconds(&self) -> (r: u32)
        ensures
            r == self@.nanoseconds,
            representable(self@.seconds, self@.nanoseconds),
    {
        proof {
            use_type_invariant(self);
        }
        self.nanoseconds
    }

    /// The text of this instant as RFC 3339 writes it, with the offset
    /// `+00:00`.
    pub fn to_rfc3339(&self) -> (r: String)
        ensures
            r@ == rfc3339_text(self@.seconds, self@.nanoseconds),
    {
        proof {
            use_type_invariant(self);
        }
        format_rfc3339(self.seconds, self.nanoseconds)
    }

    /// The instant `hours` whole hours later, if it is representable.
    pub fn plus_hours(&self, hours: u64) -> (r: Option<Instant>)
        ensures
            r is Some <==> self@.seconds + hours * SECONDS_PER_HOUR <= MAX_SECONDS,
            r matches Some(t) ==> t@ == (InstantView {
                seconds: self@.seconds + hours * SECONDS_PER_HOUR,
                nanoseconds: self@.nanoseconds,
            }),
    {
        proof {
            use_type_invariant(self);
        }
        let room: i64 = (MAX_SECONDS - self.seconds) / SECONDS_PER_HOUR;
        if hours > room as u64 {
            return None;
        }
        let later: i64 = self.seconds + (hours as i64) * SECONDS_PER_HOUR;
        Some(Instant { seconds: later, nanoseconds: self.nanoseconds })
    }

    /// The instant given as jiff's timestamps give it: `second` whole seconds
    /// from the epoch, rounded toward zero, and `nanosecond` further
    /// nanoseconds in the same direction. `None` where `nanosecond` reaches a
    /// whole second or the instant is not representable.
    pub fn from_signed_parts(second: i64, nanosecond: i32) -> (r: Option<Instant>)
        ensures
            r is Some <==> {
                &&& -NANOS_PER_SECOND < nanosecond < NANOS_PER_SECOND
                &&& MIN_SECONDS <= signed_parts(second as int, nanosecond as int).seconds
                    <= MAX_SECONDS
            },
            r matches Some(instant) ==> instant@ == signed_parts(second as int, nanosecond as int),
    {
        if nanosecond <= -1_000_000_000 || nanosecond >= 1_000_000_000 {
            return None;
        }
        if nanosecond >= 0 {
            Instant::new(second, nanosecond as u32)
        } else if second > i64::MIN {
            Instant::new(second - 1, (nanosecond + 1_000_000_000) as u32)
        } else {
            None
        }
    }

    /// Reads a timestamp with a UTC offset, such as `2024-01-01T12:00:00Z`.
    pub fn parse(text: &str) -> (r: Option<Instant>)
        ensures
            match r {
                Some(instant) => parsed_timestamp(text@) matches Some((second, nanosecond)) && {
                    &&& timestamp_parts(second as int, nanosecond as int)
                    &&& instant@ == signed_parts(second as int, nanosecond as int)
                },
                None => parsed_timestamp(text@) is None,
            },
    {
        match parse_timestamp(text) {
            Some((second, nanosecond)) => Instant::from_signed_parts(second, nanosecond),
            None => None,
        }
    }
}

/// The instant that lies `second` whole seconds and `nanosecond` nanoseconds
/// from the epoch, both counted in the same direction: its seconds are
/// rounded down, and its nanoseconds follow them.
pub open spec fn signed_parts(second: int, nanosecond: int) -> InstantView {
    if nanosecond < 0 {
        InstantView { seconds: second - 1, nanoseconds: nanosecond + NANOS_PER_SECOND }
    } else {
        InstantView { seconds: second, nanoseconds: nanosecond }
    }
}

/// The first whole second of jiff's timestamps, -9999-01-02T01:59:59Z.
pub const TIMESTAMP_MIN_SECOND: i64 = -377_705_023_201;

/// The last whole second of jiff's timestamps, 9999-12-30T22:00:00Z.
pub const TIMESTAMP_MAX_SECOND: i64 = 253_402_207_200;

/// Whether `second` and `nanosecond` lie within the limits of the parts of
/// a jiff timestamp.
pub open spec fn timestamp_parts(second: int, nanosecond: int) -> bool {
    &&& TIMESTAMP_MIN_SECOND <= second <= TIMESTAMP_MAX_SECOND
    &&& -NANOS_PER_SECOND < nanosecond < NANOS_PER_SECOND
}

/// What jiff's `FromStr` for `Timestamp` makes of `text`: `None` where it
/// reports an error, else the timestamp's `as_second` and
/// `subsec_nanosecond`.
pub uninterp spec fn parsed_timestamp(text: Seq<char>) -> Option<(i64, i32)>;

/// Parses `text` with jiff's `FromStr` for `Timestamp` and takes the value
/// apart with `Timestamp::as_second` and `Timestamp::subsec_nanosecond`.
///
/// The parser reads nothing but the text. Every timestamp of jiff lies within
/// `Timestamp::MIN` and `Timestamp::MAX`, and its nanoseconds stay short of a
/// second in either direction.
#[verifier::external_body]
fn parse_timestamp(text: &str) -> (r: Option<(i64, i32)>)
    ensures
        r == parsed_timestamp(text@),
        r matches Some((second, nanosecond)) ==> timestamp_parts(second as int, nanosecond as int),
{
    match text.parse::<jiff::Timestamp>() {
        Ok(timestamp) => Some((timestamp.as_second(), timestamp.subsec_nanosecond())),
        Err(_) => None,
    }
}

/// The text that chrono's `DateTime::<Utc>::to_rfc3339` gives for the instant
/// `nanoseconds` after the whole second `seconds`.
pub uninterp spec fn rfc3339_text(seconds: int, nanoseconds: int) -> Seq<char>;

/// Builds the `DateTime<Utc>` for the given instant with
/// `DateTime::from_timestamp` and formats it with `DateTime::to_rfc3339`.
///
/// `from_timestamp` yields a value exactly on the representable pairs, so the
/// precondition rules out its `None`; `to_rfc3339` then depends on that value
/// alone and does not fail.
#[verifier::external_body]
fn format_rfc3339(seconds: i64, nanoseconds: u32) -> (r: String)
    requires
        representable(seconds as int, nanoseconds as int),
    ensures
        r@ == rfc3339_text(seconds as int, nanoseconds as int),
{
    chrono::DateTime::from_timestamp(seconds, nanoseconds).unwrap().to_rfc3339()
}

} // verus!
