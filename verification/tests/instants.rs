use backend::db::ScheduleWindow;
use backend::instant::{
    Instant, MAX_SECONDS, MIN_SECONDS, TIMESTAMP_MAX_SECOND, TIMESTAMP_MIN_SECOND,
};
use chrono::{DateTime, Utc};

#[test]
fn instant_keeps_its_parts() {
    let instant = Instant::new(1_704_110_400, 5).expect("representable");
    assert_eq!(instant.seconds(), 1_704_110_400);
    assert_eq!(instant.nanoseconds(), 5);
}

#[test]
fn instants_are_what_chrono_can_hold() {
    assert_eq!(MIN_SECONDS, DateTime::<Utc>::MIN_UTC.timestamp());
    assert_eq!(MAX_SECONDS, DateTime::<Utc>::MAX_UTC.timestamp());
    let cases: [(i64, u32); 16] = [
        (0, 0),
        (0, 999_999_999),
        (0, 1_000_000_000),
        (59, 1_000_000_000),
        (59, 1_999_999_999),
        (59, 2_000_000_000),
        (-1, 1_500_000_000),
        (-2, 1_500_000_000),
        (-61, 1_000_000_000),
        (MIN_SECONDS, 0),
        (MIN_SECONDS - 1, 0),
        (MAX_SECONDS, 999_999_999),
        (MAX_SECONDS, 1_999_999_999),
        (MAX_SECONDS + 1, 0),
        (i64::MIN, 0),
        (i64::MAX, u32::MAX),
    ];
    for (seconds, nanoseconds) in cases {
        let ours = Instant::new(seconds, nanoseconds);
        let theirs = DateTime::from_timestamp(seconds, nanoseconds);
        assert_eq!(ours.is_some(), theirs.is_some(), "{seconds} {nanoseconds}");
        if let (Some(ours), Some(theirs)) = (ours, theirs) {
            assert_eq!(ours.seconds(), theirs.timestamp());
            assert_eq!(ours.nanoseconds(), theirs.timestamp_subsec_nanos());
            assert_eq!(ours.to_rfc3339(), theirs.to_rfc3339());
        }
    }
}

#[test]
fn instants_are_written_as_rfc3339() {
    let written = |seconds: i64, nanoseconds: u32| {
        Instant::new(seconds, nanoseconds).expect("representable").to_rfc3339()
    };
    assert_eq!(written(0, 0), "1970-01-01T00:00:00+00:00");
    assert_eq!(written(1_769_965_200, 0), "2026-02-01T17:00:00+00:00");
    assert_eq!(written(1_770_001_200, 0), "2026-02-02T03:00:00+00:00");
    assert_eq!(written(1_769_970_600, 0), "2026-02-01T18:30:00+00:00");
    assert_eq!(written(-1, 999_999_999), "1969-12-31T23:59:59.999999999+00:00");
    assert_eq!(written(1_704_110_400, 123_000), "2024-01-01T12:00:00.000123+00:00");
    assert_eq!(written(59, 1_000_000_000), "1970-01-01T00:00:60+00:00");
    assert_eq!(written(MIN_SECONDS, 0), "-262143-01-01T00:00:00+00:00");
    assert_eq!(written(MAX_SECONDS, 999_999_999), "+262142-12-31T23:59:59.999999999+00:00");
}

#[test]
fn instants_later_by_whole_hours() {
    let start = Instant::new(1_704_110_400, 7).expect("representable");
    let later = start.plus_hours(12).expect("representable");
    assert_eq!(later.seconds(), 1_704_153_600);
    assert_eq!(later.nanoseconds(), 7);
    assert_eq!(start.plus_hours(0).expect("representable").seconds(), 1_704_110_400);

    let last_hour = Instant::new(MAX_SECONDS - 3_600, 0).expect("representable");
    assert_eq!(last_hour.plus_hours(1).expect("representable").seconds(), MAX_SECONDS);
    assert!(last_hour.plus_hours(2).is_none());
    let short_of_it = Instant::new(MAX_SECONDS - 3_599, 0).expect("representable");
    assert!(short_of_it.plus_hours(1).is_none());
    assert!(start.plus_hours(u64::MAX).is_none());

    let leap = Instant::new(59, 1_500_000_000).expect("representable");
    let later = leap.plus_hours(1).expect("representable");
    assert_eq!((later.seconds(), later.nanoseconds()), (3_659, 1_500_000_000));
}

#[test]
fn windows_start_at_their_start() {
    let start = Instant::new(1_704_110_400, 0).expect("representable");
    let window = ScheduleWindow::starting_at(start, 24).expect("representable");
    assert_eq!(window.start().seconds(), 1_704_110_400);
    assert_eq!(window.end().seconds(), 1_704_196_800);
    let late = Instant::new(MAX_SECONDS, 0).expect("representable");
    assert!(ScheduleWindow::starting_at(late, 1).is_none());
    assert!(ScheduleWindow::starting_at(late, 0).is_some());
}

#[test]
fn instants_from_signed_parts() {
    let parts = |second: i64, nanosecond: i32| {
        Instant::from_signed_parts(second, nanosecond)
            .map(|instant| (instant.seconds(), instant.nanoseconds()))
    };
    assert_eq!(parts(5, 123_456_789), Some((5, 123_456_789)));
    assert_eq!(parts(-5, -123_456_789), Some((-6, 876_543_211)));
    assert_eq!(parts(0, -1), Some((-1, 999_999_999)));
    assert_eq!(parts(0, 0), Some((0, 0)));
    assert_eq!(parts(-5, 0), Some((-5, 0)));
    assert_eq!(parts(5, 1_000_000_000), None);
    assert_eq!(parts(5, -1_000_000_000), None);
    assert_eq!(parts(5, i32::MIN), None);
    assert_eq!(parts(MIN_SECONDS, -1), None);
    assert_eq!(parts(MIN_SECONDS, 0), Some((MIN_SECONDS, 0)));
    assert_eq!(parts(i64::MIN, -1), None);
    assert_eq!(parts(MAX_SECONDS + 1, -1), Some((MAX_SECONDS, 999_999_999)));
    assert_eq!(parts(MAX_SECONDS + 1, 0), None);
}

#[test]
fn signed_parts_agree_with_jiff() {
    for (second, nanosecond) in
        [(5i64, 123_456_789i32), (-5, -123_456_789), (0, -1), (0, 1), (-1, 0), (1_704_110_400, 0)]
    {
        let timestamp = jiff::Timestamp::new(second, nanosecond).expect("valid timestamp");
        let instant =
            Instant::from_signed_parts(timestamp.as_second(), timestamp.subsec_nanosecond())
                .expect("representable");
        let total = instant.seconds() as i128 * 1_000_000_000 + instant.nanoseconds() as i128;
        assert_eq!(total, timestamp.as_nanosecond());
    }
}

#[test]
fn timestamps_are_parsed() {
    let parsed = |text: &str| {
        Instant::parse(text).map(|instant| (instant.seconds(), instant.nanoseconds()))
    };
    assert_eq!(parsed("1970-01-01T00:00:00Z"), Some((0, 0)));
    assert_eq!(parsed("2024-01-01T12:00:00Z"), Some((1_704_110_400, 0)));
    assert_eq!(parsed("2024-01-01T12:00:00.5Z"), Some((1_704_110_400, 500_000_000)));
    assert_eq!(parsed("2024-01-01T12:00:00+01:00"), Some((1_704_106_800, 0)));
    assert_eq!(parsed("1969-12-31T23:59:59.25Z"), Some((-1, 250_000_000)));
    assert_eq!(parsed("1969-12-31T23:59:58.75Z"), Some((-2, 750_000_000)));
    assert_eq!(parsed("2024-01-01T12:00:00"), None);
    assert_eq!(parsed("2024-01-01"), None);
    assert_eq!(parsed("2024-01-01:00:00Z"), None);
    assert_eq!(parsed(""), None);
}

#[test]
fn parsed_timestamps_lie_within_their_limits() {
    assert_eq!(TIMESTAMP_MIN_SECOND, jiff::Timestamp::MIN.as_second());
    assert_eq!(TIMESTAMP_MAX_SECOND, jiff::Timestamp::MAX.as_second());
    assert_eq!(jiff::Timestamp::MIN.subsec_nanosecond(), 0);

    let first = Instant::parse("-009999-01-02T01:59:59Z").expect("valid timestamp");
    assert_eq!(first.seconds(), TIMESTAMP_MIN_SECOND);
    let last = Instant::parse("9999-12-30T22:00:00.999999999Z").expect("valid timestamp");
    assert_eq!((last.seconds(), last.nanoseconds()), (TIMESTAMP_MAX_SECOND, 999_999_999));
    assert!(Instant::parse("-009999-01-02T01:59:58Z").is_none());
    assert!(Instant::parse("9999-12-30T22:00:01Z").is_none());
}
