use axum::extract::Query;
use axum::http::Uri;
use backend::api::schedules::{
    BAD_REQUEST, HOUR_SUFFIX, INVALID_DURATION_HOURS, INVALID_START_HOUR_UTC, MAX_DURATION_HOURS,
    MIN_DURATION_HOURS,
};
use backend::api::{GetSchedulesInput, GetSchedulesQueryParams, GetSchedulesRejection};
use backend::instant::Instant;
use serde::de::{Deserialize, Deserializer, Error, IgnoredAny, MapAccess, Visitor};

/// The two parameters as a request spells them.
struct Params {
    start_hour_utc: String,
    duration_hours: u64,
}

struct ParamsVisitor;

impl<'de> Visitor<'de> for ParamsVisitor {
    type Value = Params;

    fn expecting(&self, formatter: &mut std::fmt::Formatter) -> std::fmt::Result {
        formatter.write_str("the parameters of a schedule query")
    }

    fn visit_map<A: MapAccess<'de>>(self, mut map: A) -> Result<Params, A::Error> {
        let mut start_hour_utc: Option<String> = None;
        let mut duration_hours: Option<u64> = None;
        while let Some(key) = map.next_key::<String>()? {
            match key.as_str() {
                "start_hour_utc" => start_hour_utc = Some(map.next_value()?),
                "duration_hours" => duration_hours = Some(map.next_value()?),
                _ => {
                    map.next_value::<IgnoredAny>()?;
                }
            }
        }
        Ok(Params {
            start_hour_utc: start_hour_utc
                .ok_or_else(|| A::Error::missing_field("start_hour_utc"))?,
            duration_hours: duration_hours
                .ok_or_else(|| A::Error::missing_field("duration_hours"))?,
        })
    }
}

impl<'de> Deserialize<'de> for Params {
    fn deserialize<D: Deserializer<'de>>(deserializer: D) -> Result<Self, D::Error> {
        deserializer.deserialize_map(ParamsVisitor)
    }
}

/// Reads the parameters from the query string of `uri`, as the endpoint does.
fn extract(uri: &str) -> Result<GetSchedulesQueryParams, String> {
    let uri: Uri = uri.parse().unwrap();
    Query::<Params>::try_from_uri(&uri)
        .map(|Query(params)| GetSchedulesQueryParams {
            start_hour_utc: params.start_hour_utc,
            duration_hours: params.duration_hours,
        })
        .map_err(|rejection| rejection.to_string())
}

fn query(start_hour_utc: &str, duration_hours: u64) -> Result<GetSchedulesQueryParams, String> {
    Ok(GetSchedulesQueryParams { start_hour_utc: start_hour_utc.to_string(), duration_hours })
}

#[test]
fn test_missing_query_params() {
    let extracted = extract("/schedules?start_hour_utc=2024-01-01T00");

    let input = GetSchedulesInput::from_request_parts(extracted).unwrap_err();

    assert!(matches!(input, GetSchedulesRejection::QueryRejection(_)));
    assert_eq!(input.into_response().status, 400);
}

#[test]
fn test_duration_below_min() {
    let extracted = extract("/schedules?start_hour_utc=2024-01-01T00&duration_hours=0");

    let input = GetSchedulesInput::from_request_parts(extracted).unwrap_err();

    assert!(matches!(input, GetSchedulesRejection::InvalidDurationHours));
    assert_eq!(input.into_response().status, 400);
}

#[test]
fn test_duration_above_max() {
    let extracted = extract("/schedules?start_hour_utc=2024-01-01T00&duration_hours=169");

    let input = GetSchedulesInput::from_request_parts(extracted).unwrap_err();

    assert!(matches!(input, GetSchedulesRejection::InvalidDurationHours));
    assert_eq!(input.into_response().status, 400);
}

#[test]
fn test_invalid_start_hour() {
    let extracted = extract("/schedules?start_hour_utc=2024-01-01&duration_hours=1");

    let input = GetSchedulesInput::from_request_parts(extracted).unwrap_err();

    assert!(matches!(input, GetSchedulesRejection::InvalidStartHourUtc));
    assert_eq!(input.into_response().status, 400);
}

#[test]
fn test_valid() {
    let extracted = extract("/schedules?start_hour_utc=2024-01-01T12&duration_hours=12");

    let input = GetSchedulesInput::from_request_parts(extracted).unwrap();

    let expected: jiff::Timestamp = "2024-01-01T12:00:00Z".parse().unwrap();
    assert_eq!(input.start_hour_utc().seconds(), expected.as_second());
    assert_eq!(input.start_hour_utc().nanoseconds(), 0);
    assert_eq!(input.start_hour_utc().seconds(), 1_704_110_400);
    assert_eq!(input.duration_hours(), 12);
}

#[test]
fn parameters_that_cannot_be_read_are_rejected_as_such() {
    for uri in [
        "/schedules",
        "/schedules?",
        "/schedules?duration_hours=12",
        "/schedules?start_hour_utc=2024-01-01T00&duration_hours=twelve",
        "/schedules?start_hour_utc=2024-01-01T00&duration_hours=-1",
        "/schedules?start_hour_utc=2024-01-01T00&duration_hours=",
    ] {
        let extracted = extract(uri);
        let reason = extracted.as_ref().err().expect("unreadable parameters").clone();
        let rejection = GetSchedulesInput::from_request_parts(extracted).unwrap_err();
        assert!(matches!(rejection, GetSchedulesRejection::QueryRejection(_)), "{uri}");
        assert_eq!(rejection.message(), reason);
    }
}

#[test]
fn start_is_completed_by_the_suffix() {
    assert_eq!(HOUR_SUFFIX, ":00:00Z");
    let whole = Instant::parse("2024-01-01T12:00:00Z").expect("valid timestamp");
    let input = GetSchedulesInput::from_request_parts(query("2024-01-01T12", 1)).unwrap();
    assert_eq!(input.start_hour_utc().seconds(), whole.seconds());
}

#[test]
fn other_spellings_of_the_start_are_accepted() {
    for start in ["2024-01-01 12", "2024-01-01t12", "20240101T12", "+002024-01-01T12"] {
        let input = GetSchedulesInput::from_request_parts(query(start, 12)).unwrap();
        assert_eq!(input.start_hour_utc().seconds(), 1_704_110_400, "{start}");
    }
}

#[test]
fn start_off_the_hour_is_rejected() {
    for (seconds, nanoseconds) in
        [(1_704_110_401i64, 0u32), (1_704_110_460, 0), (1_704_110_400, 1), (1_704_112_200, 0)]
    {
        let start = Instant::new(seconds, nanoseconds);
        assert!(start.is_some());
        let rejection = GetSchedulesInput::validated(start, 12).unwrap_err();
        assert!(matches!(rejection, GetSchedulesRejection::InvalidStartHourUtc));
    }
    let before_epoch = Instant::new(-7_200, 0);
    assert!(GetSchedulesInput::validated(before_epoch, 12).is_ok());
    let before_epoch = Instant::new(-7_201, 0);
    assert!(GetSchedulesInput::validated(before_epoch, 12).is_err());
}

#[test]
fn duration_bounds_are_accepted() {
    assert_eq!(MIN_DURATION_HOURS, 1);
    assert_eq!(MAX_DURATION_HOURS, 168);
    let shortest = GetSchedulesInput::from_request_parts(query("2024-01-01T00", 1)).unwrap();
    assert_eq!(shortest.duration_hours(), 1);
    let longest = GetSchedulesInput::from_request_parts(query("2024-01-01T00", 168)).unwrap();
    assert_eq!(longest.duration_hours(), 168);
}

#[test]
fn every_duration_out_of_range_is_rejected() {
    for duration_hours in [0u64, 169, 170, 1_000, u64::MAX] {
        let rejection =
            GetSchedulesInput::from_request_parts(query("2024-01-01T00", duration_hours))
                .unwrap_err();
        assert!(matches!(rejection, GetSchedulesRejection::InvalidDurationHours));
    }
}

#[test]
fn start_is_judged_before_duration() {
    let rejection =
        GetSchedulesInput::from_request_parts(query("2024-01-01", 0)).unwrap_err();
    assert!(matches!(rejection, GetSchedulesRejection::InvalidStartHourUtc));
}

#[test]
fn starts_that_are_no_timestamp_are_rejected() {
    for start in ["", "T12", "2024-01-01T", "2024-01-01T24", "2024-13-01T00", "2024-02-30T00",
        "2024-01-01T12:30", "2024-01-01T12:00:00Z", "yesterday"]
    {
        let rejection = GetSchedulesInput::from_query(GetSchedulesQueryParams {
            start_hour_utc: start.to_string(),
            duration_hours: 12,
        })
        .unwrap_err();
        assert!(matches!(rejection, GetSchedulesRejection::InvalidStartHourUtc), "{start}");
    }
}

#[test]
fn window_ends_exactly_the_duration_after_the_start() {
    for duration_hours in [1u64, 12, 24, 167, 168] {
        let input =
            GetSchedulesInput::from_request_parts(query("2024-01-01T12", duration_hours)).unwrap();
        let window = input.window();
        assert_eq!(window.start().seconds(), 1_704_110_400);
        assert_eq!(window.start().nanoseconds(), 0);
        assert_eq!(window.end().seconds(), 1_704_110_400 + 3_600 * duration_hours as i64);
        assert_eq!(window.end().nanoseconds(), 0);
    }
}

#[test]
fn window_of_twelve_hours_ends_at_midnight() {
    let input = GetSchedulesInput::from_request_parts(query("2024-01-01T12", 12)).unwrap();
    let end = input.window().end();
    assert_eq!(end.to_rfc3339(), "2024-01-02T00:00:00+00:00");
}

#[test]
fn window_of_the_latest_start_is_still_resolved() {
    let input = GetSchedulesInput::from_request_parts(query("9999-12-30T22", 168)).unwrap();
    assert_eq!(input.start_hour_utc().seconds(), 253_402_207_200);
    let window = input.window();
    assert_eq!(window.end().seconds(), 253_402_207_200 + 168 * 3_600);
}

#[test]
fn start_before_the_epoch_is_accepted() {
    let input = GetSchedulesInput::from_request_parts(query("1969-12-31T23", 2)).unwrap();
    assert_eq!(input.start_hour_utc().seconds(), -3_600);
    assert_eq!(input.window().end().seconds(), 3_600);
}

#[test]
fn start_past_the_last_timestamp_is_rejected() {
    let rejection =
        GetSchedulesInput::from_request_parts(query("9999-12-30T23", 1)).unwrap_err();
    assert!(matches!(rejection, GetSchedulesRejection::InvalidStartHourUtc));
}

#[test]
fn validated_judges_a_start_given_as_an_instant() {
    let start = Instant::new(1_704_110_400, 0);
    let input = GetSchedulesInput::validated(start, 12).unwrap();
    assert_eq!(input.start_hour_utc().seconds(), 1_704_110_400);
    assert_eq!(input.duration_hours(), 12);

    let missing = GetSchedulesInput::validated(None, 12).unwrap_err();
    assert!(matches!(missing, GetSchedulesRejection::InvalidStartHourUtc));

    let latest = Instant::new(253_402_207_200, 0);
    assert!(GetSchedulesInput::validated(latest, 168).is_ok());
    let too_late = Instant::new(253_402_210_800, 0);
    assert!(too_late.is_some());
    let rejection = GetSchedulesInput::validated(too_late, 12).unwrap_err();
    assert!(matches!(rejection, GetSchedulesRejection::InvalidStartHourUtc));

    let earliest = Instant::new(-377_705_023_200, 0);
    assert!(GetSchedulesInput::validated(earliest, 1).is_ok());
    let too_early = Instant::new(-377_705_026_800, 0);
    assert!(too_early.is_some());
    let rejection = GetSchedulesInput::validated(too_early, 12).unwrap_err();
    assert!(matches!(rejection, GetSchedulesRejection::InvalidStartHourUtc));

    let leap = Instant::new(1_704_110_399, 1_500_000_000);
    assert!(leap.is_some());
    let rejection = GetSchedulesInput::validated(leap, 12).unwrap_err();
    assert!(matches!(rejection, GetSchedulesRejection::InvalidStartHourUtc));
}

#[test]
fn rejections_carry_their_messages() {
    assert_eq!(BAD_REQUEST, 400);
    let start = GetSchedulesRejection::InvalidStartHourUtc;
    assert_eq!(
        start.message(),
        "Invalid start_hour_utc. Must be a valid ISO 8601 timestamp with hour precision"
    );
    assert_eq!(start.message(), INVALID_START_HOUR_UTC);
    let response = start.into_response();
    assert_eq!(response.status, 400);
    assert_eq!(response.body, INVALID_START_HOUR_UTC);

    let duration = GetSchedulesRejection::InvalidDurationHours;
    assert_eq!(duration.message(), "Invalid duration_hours. Must be between 1 and 168 hours");
    let response = duration.into_response();
    assert_eq!(response.status, 400);
    assert_eq!(response.body, INVALID_DURATION_HOURS);

    let reason = "Failed to deserialize query string: missing field `start_hour_utc`";
    let unread = GetSchedulesInput::from_request_parts(Err(reason.to_string())).unwrap_err();
    assert_eq!(unread.message(), reason);
    let response = unread.into_response();
    assert_eq!(response.status, 400);
    assert_eq!(response.body, reason);
}

#[test]
fn window_end_agrees_with_timestamp_arithmetic() {
    for start_hour_utc in ["1970-01-01T00", "1969-12-31T23", "2024-02-28T23", "2024-12-31T18",
        "0001-01-01T00", "-009999-01-02T02", "9999-12-23T00"]
    {
        let timestamp: jiff::Timestamp =
            format!("{start_hour_utc}:00:00Z").parse().expect("valid timestamp");
        for duration_hours in 1..=168u64 {
            let input =
                GetSchedulesInput::from_request_parts(query(start_hour_utc, duration_hours))
                    .unwrap();
            assert_eq!(input.start_hour_utc().seconds(), timestamp.as_second());
            assert_eq!(input.start_hour_utc().seconds() % 3_600, 0);
            let soon = timestamp + std::time::Duration::from_secs(3_600 * duration_hours);
            let window = input.window();
            assert_eq!(window.end().seconds(), soon.as_second());
            assert_eq!(window.end().nanoseconds(), 0);
        }
    }
}
