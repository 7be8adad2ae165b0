//! The schedule endpoint: its query parameters, their validation and the
//! window of time they ask about.

use crate::api::{InternalError, INTERNAL_SERVER_ERROR};
use crate::db::{ScheduleRow, ScheduleWindow};
use crate::domain::schedules::{listing_of, ScheduleView};
use crate::domain::{get_schedules as list_schedules, VendorSchedules};
use crate::instant::{
    parsed_timestamp, signed_parts, Instant, InstantView, SECONDS_PER_HOUR, TIMESTAMP_MAX_SECOND,
    TIMESTAMP_MIN_SECOND,
};
use vstd::prelude::*;

verus! {

/// The shortest duration that a query may ask for, in hours.
pub const MIN_DURATION_HOURS: u64 = 1;

/// The longest duration that a query may ask for, in hours: one week.
pub const MAX_DURATION_HOURS: u64 = 168;

/// What completes a start of hour precision, such as `2024-01-01T12`, to a
/// timestamp in UTC.
pub const HOUR_SUFFIX: &'static str = ":00:00Z";

/// The status of every response to a rejected query.
pub const BAD_REQUEST: u16 = 400;

/// The message for a start that is no timestamp.
pub const INVALID_START_HOUR_UTC: &'static str =
    "Invalid start_hour_utc. Must be a valid ISO 8601 timestamp with hour precision";

/// The message for a duration out of range.
pub const INVALID_DURATION_HOURS: &'static str =
    "Invalid duration_hours. Must be between 1 and 168 hours";

/// The two parameters of a schedule query as the request gives them.
#[derive(Debug)]
pub struct GetSchedulesQueryParams {
    pub start_hour_utc: String,
    pub duration_hours: u64,
}

/// Why a schedule query is turned down.
#[derive(Debug)]
pub enum GetSchedulesRejection {
    /// The start, completed to a timestamp, does not parse.
    InvalidStartHourUtc,
    /// The duration is not between 1 and 168 hours.
    InvalidDurationHours,
    /// The parameters could not be read from the request; the text says why.
    QueryRejection(String),
}

/// What a validated query holds.
pub struct GetSchedulesInputView {
    pub start_hour_utc: InstantView,
    pub duration_hours: u64,
}

/// A validated schedule query: a start on a whole hour within the range of
/// timestamps, and a duration between 1 and 168 hours.
#[derive(Debug)]
pub struct GetSchedulesInput {
    start_hour_utc: Instant,
    duration_hours: u64,
}

impl View for GetSchedulesInput {
    type V = GetSchedulesInputView;

    closed spec fn view(&self) -> GetSchedulesInputView {
        GetSchedulesInputView {
            start_hour_utc: self.start_hour_utc@,
            duration_hours: self.duration_hours,
        }
    }
}

/// Whether an instant lies on a whole hour: its minutes, seconds and
/// nanoseconds are zero.
pub open spec fn on_the_hour(instant: InstantView) -> bool {
    instant.seconds % (SECONDS_PER_HOUR as int) == 0 && instant.nanoseconds == 0
}

/// Whether a query may start at `start`: on a whole hour, no earlier than
/// -9999-01-02T01:59:59Z and no later than 9999-12-30T22:00:00Z.
pub open spec fn is_query_start(start: InstantView) -> bool {
    &&& TIMESTAMP_MIN_SECOND <= start.seconds <= TIMESTAMP_MAX_SECOND
    &&& on_the_hour(start)
}

/// Whether a query may last `hours` hours.
pub open spec fn is_duration(hours: u64) -> bool {
    MIN_DURATION_HOURS <= hours <= MAX_DURATION_HOURS
}

/// The rejection that a start and a duration earn, if any. The start is
/// judged first.
pub open spec fn query_defect(start: Option<Instant>, duration_hours: u64) -> Option<
    GetSchedulesRejection,
> {
    if !(start matches Some(instant) && is_query_start(instant@)) {
        Some(GetSchedulesRejection::InvalidStartHourUtc)
    } else if !is_duration(duration_hours) {
        Some(GetSchedulesRejection::InvalidDurationHours)
    } else {
        None
    }
}

/// The start that a text of hour precision denotes, if any: what
/// [`HOUR_SUFFIX`] completes to a timestamp.
pub open spec fn parsed_start(start_hour_utc: Seq<char>) -> Option<InstantView> {
    match parsed_timestamp(start_hour_utc + HOUR_SUFFIX@) {
        Some((second, nanosecond)) => Some(signed_parts(second as int, nanosecond as int)),
        None => None,
    }
}

/// What becomes of a query with the given parameters: it is accepted as it
/// is where the start denotes a whole hour and the duration is in range. A
/// start that denotes none is reported before a duration out of range.
pub open spec fn query_outcome(start_hour_utc: Seq<char>, duration_hours: u64) -> Result<
    GetSchedulesInputView,
    GetSchedulesRejection,
> {
    match parsed_start(start_hour_utc) {
        Some(start) => if !on_the_hour(start) {
            Err(GetSchedulesRejection::InvalidStartHourUtc)
        } else if !is_duration(duration_hours) {
            Err(GetSchedulesRejection::InvalidDurationHours)
        } else {
            Ok(GetSchedulesInputView { start_hour_utc: start, duration_hours })
        },
        None => Err(GetSchedulesRejection::InvalidStartHourUtc),
    }
}

/// The instant at which the window of a query ends: its duration after its
/// start.
pub open spec fn window_end(query: GetSchedulesInputView) -> InstantView {
    InstantView {
        seconds: query.start_hour_utc.seconds + query.duration_hours * SECONDS_PER_HOUR,
        nanoseconds: query.start_hour_utc.nanoseconds,
    }
}

/// The message of a rejection.
pub open spec fn rejection_message(rejection: GetSchedulesRejection) -> Seq<char> {
    match rejection {
        GetSchedulesRejection::InvalidStartHourUtc => INVALID_START_HOUR_UTC@,
        GetSchedulesRejection::InvalidDurationHours => INVALID_DURATION_HOURS@,
        GetSchedulesRejection::QueryRejection(reason) => reason@,
    }
}

/// The response to a rejected query.
#[derive(Debug)]
pub struct RejectionResponse {
    pub status: u16,
    pub body: String,
}

impl GetSchedulesRejection {
    /// The message that tells the client what is wrong.
    pub fn message(&self) -> (r: String)
        ensures
            r@ == rejection_message(*self),
    {
        match self {
            GetSchedulesRejection::InvalidStartHourUtc => INVALID_START_HOUR_UTC.to_owned(),
            GetSchedulesRejection::InvalidDurationHours => INVALID_DURATION_HOURS.to_owned(),
            GetSchedulesRejection::QueryRejection(reason) => reason.clone(),
        }
    }

    /// The response that a rejection is answered with: a bad request, with
    /// the message as its body.
    pub fn into_response(self) -> (r: RejectionResponse)
        ensures
            r.status == BAD_REQUEST,
            r.body@ == rejection_message(self),
    {
        RejectionResponse { status: BAD_REQUEST, body: self.message() }
    }
}

impl GetSchedulesInput {
    #[verifier::type_invariant]
    spec fn valid(self) -> bool {
        is_query_start(self.start_hour_utc@) && is_duration(self.duration_hours)
    }

    /// Accepts a start and a duration as they are, or says what is wrong with
    /// them: a start that is missing, out of range or off the hour, or else a
    /// duration out of range.
    pub fn validated(start: Option<Instant>, duration_hours: u64) -> (r: Result<
        GetSchedulesInput,
        GetSchedulesRejection,
    >)
        ensures
            match r {
                Ok(input) => {
                    &&& query_defect(start, duration_hours) is None
                    &&& input@ == (GetSchedulesInputView {
                        start_hour_utc: start->0@,
                        duration_hours,
                    })
                },
                Err(rejection) => query_defect(start, duration_hours) == Some(rejection),
            },
    {
        let start_hour_utc = match start {
            Some(instant) => instant,
            None => return Err(GetSchedulesRejection::InvalidStartHourUtc),
        };
        let seconds: i64 = start_hour_utc.seconds();
        if seconds < TIMESTAMP_MIN_SECOND || seconds > TIMESTAMP_MAX_SECOND {
            return Err(GetSchedulesRejection::InvalidStartHourUtc);
        }
        if seconds.checked_rem_euclid(SECONDS_PER_HOUR) != Some(0) || start_hour_utc.nanoseconds()
            != 0 {
            return Err(GetSchedulesRejection::InvalidStartHourUtc);
        }
        if duration_hours < MIN_DURATION_HOURS || duration_hours > MAX_DURATION_HOURS {
            return Err(GetSchedulesRejection::InvalidDurationHours);
        }
        Ok(GetSchedulesInput { start_hour_utc, duration_hours })
    }

    /// Validates the parameters of a query: the start, completed by
    /// [`HOUR_SUFFIX`], must parse as a timestamp on a whole hour, and the
    /// duration must lie between 1 and 168 hours. A start that fails is
    /// reported before a duration out of range.
    pub fn from_query(params: GetSchedulesQueryParams) -> (r: Result<
        GetSchedulesInput,
        GetSchedulesRejection,
    >)
        ensures
            match r {
                Ok(input) => query_outcome(params.start_hour_utc@, params.duration_hours) == Ok::<
                    GetSchedulesInputView,
                    GetSchedulesRejection,
                >(input@),
                Err(rejection) => query_outcome(params.start_hour_utc@, params.duration_hours)
                    == Err::<GetSchedulesInputView, GetSchedulesRejection>(rejection),
            },
    {
        let text = params.start_hour_utc.concat(HOUR_SUFFIX);
        let start = Instant::parse(text.as_str());
        GetSchedulesInput::validated(start, params.duration_hours)
    }

    /// The start of the query.
    pub fn start_hour_utc(&self) -> (r: Instant)
        ensures
            r@ == self@.start_hour_utc,
            is_query_start(r@),
    {
        proof {
            use_type_invariant(self);
        }
        self.start_hour_utc
    }

    /// The duration of the query in hours.
    pub fn duration_hours(&self) -> (r: u64)
        ensures
            r == self@.duration_hours,
            is_duration(r),
    {
        proof {
            use_type_invariant(self);
        }
        self.duration_hours
    }

    /// The window that the query asks about: it starts at the query's start
    /// and ends exactly its duration later.
    pub fn window(&self) -> (r: ScheduleWindow)
        ensures
            r@.start == self@.start_hour_utc,
            r@.end == window_end(self@),
    {
        proof {
            use_type_invariant(self);
        }
        ScheduleWindow::starting_at(self.start_hour_utc, self.duration_hours).unwrap()
    }

    /// Turns the outcome of reading the two parameters from a request into a
    /// validated query. Parameters that could not be read are rejected with
    /// the reason given; those that were read are judged by
    /// [`GetSchedulesInput::from_query`].
    pub fn from_request_parts(extracted: Result<GetSchedulesQueryParams, String>) -> (r: Result<
        GetSchedulesInput,
        GetSchedulesRejection,
    >)
        ensures
            match extracted {
                Err(reason) => r matches Err(GetSchedulesRejection::QueryRejection(text))
                    && text@ == reason@,
                Ok(params) => match r {
                    Ok(input) => query_outcome(params.start_hour_utc@, params.duration_hours)
                        == Ok::<GetSchedulesInputView, GetSchedulesRejection>(input@),
                    Err(rejection) => query_outcome(
                        params.start_hour_utc@,
                        params.duration_hours,
                    ) == Err::<GetSchedulesInputView, GetSchedulesRejection>(rejection),
                },
            },
    {
        match extracted {
            Ok(params) => GetSchedulesInput::from_query(params),
            Err(reason) => Err(GetSchedulesRejection::QueryRejection(reason)),
        }
    }
}

/// Answers a validated query from what the store returned for its window:
/// the listing, or an internal error that keeps the cause, be it the store's
/// failure or the defect of a row.
pub fn get_schedules(fetched: Result<Vec<ScheduleRow>, String>) -> (r: Result<
    VendorSchedules,
    InternalError,
>)
    ensures
        match r {
            Ok(listing) => fetched matches Ok(rows) && listing_of(rows@) == Ok::<
                Seq<ScheduleView>,
                Seq<char>,
            >(listing@),
            Err(error) => {
                &&& error.status == INTERNAL_SERVER_ERROR
                &&& match fetched {
                    Err(cause) => error.cause@ == cause@,
                    Ok(rows) => listing_of(rows@) == Err::<Seq<ScheduleView>, Seq<char>>(
                        error.cause@,
                    ),
                }
            },
        },
{
    match list_schedules(fetched) {
        Ok(listing) => Ok(listing),
        Err(cause) => Err(InternalError::because(cause)),
    }
}

/// A start that denotes a whole hour and a duration between 1 and 168 hours
/// are accepted as they are, and the window of the accepted query ends
/// exactly that many hours after its start, again on a whole hour.
pub proof fn lemma_valid_query_window(start_hour_utc: Seq<char>, duration_hours: u64)
    requires
        parsed_start(start_hour_utc) matches Some(start) && on_the_hour(start),
        is_duration(duration_hours),
    ensures
        query_outcome(start_hour_utc, duration_hours) matches Ok(query) && {
            &&& query.start_hour_utc == parsed_start(start_hour_utc)->0
            &&& query.duration_hours == duration_hours
            &&& window_end(query).seconds == query.start_hour_utc.seconds + 3600 * duration_hours
            &&& window_end(query).nanoseconds == query.start_hour_utc.nanoseconds
            &&& on_the_hour(window_end(query))
        },
{
}

/// A query is turned down exactly when its start denotes no whole hour or
/// its duration is out of range, and the start is reported first.
pub proof fn lemma_rejections(start_hour_utc: Seq<char>, duration_hours: u64)
    ensures
        match query_outcome(start_hour_utc, duration_hours) {
            Ok(_) => {
                &&& parsed_start(start_hour_utc) matches Some(start) && on_the_hour(start)
                &&& is_duration(duration_hours)
            },
            Err(GetSchedulesRejection::InvalidStartHourUtc) => !(parsed_start(start_hour_utc)
                matches Some(start) && on_the_hour(start)),
            Err(GetSchedulesRejection::InvalidDurationHours) => {
                &&& parsed_start(start_hour_utc) matches Some(start) && on_the_hour(start)
                &&& !is_duration(duration_hours)
            },
            Err(GetSchedulesRejection::QueryRejection(_)) => false,
        },
{
}

} // verus!
