use chrono::TimeZone;
use organizer::calendar::{FIRST_SECOND, LAST_SECOND};
use organizer::time::{Duration, Ratio, Time, TimeError, TimeErrorKind};

#[test]
fn new_from_string() {
    let time_string = "Sat, 21 Jan 2023 12:25:20 +0100";
    let time = Time::from(time_string);
    assert_eq!(time.to_string(), time_string);
}

#[test]
fn comparison() {
    let before = Time::from("Sat, 21 Jan 2023 12:25:20 +0100");
    let after = Time::from("Sat, 21 Jan 2023 12:25:21 +0100");
    assert!(after > before);

    let before = Time::from("Sat, 21 Jan 2023 12:25:20 +0100");
    let after = Time::now();
    assert!(after > before);
}

#[test]
fn equality() {
    let before = Time::from("Sat, 21 Jan 2023 12:25:20 +0100");
    let after = Time::from("Sat, 21 Jan 2023 13:25:20 +0100");
    let duration_1 = &after - &before;
    let duration_2 = Duration::from_minutes(60);
    assert_eq!(duration_1, duration_2);
}

fn as_float(ratio: Ratio) -> f32 {
    ratio.numerator as f32 / ratio.denominator as f32
}

#[test]
fn duration_ratio() {
    let duration_1 = Duration::from_minutes(30);
    let duration_2 = Duration::from_minutes(15);
    let ratio = as_float(duration_1.checked_div(&duration_2).unwrap());
    assert!((ratio - 2.0).abs() < 1e-6);

    let duration_1 = Duration::from_minutes(30);
    let duration_2 = Duration::from_minutes(14);
    let ratio = as_float(duration_1.checked_div(&duration_2).unwrap());
    assert!((ratio - 2.142857).abs() < 1e-6);

    let duration_1 = Duration::from_minutes(0);
    let duration_2 = Duration::from_minutes(14);
    let ratio = as_float(duration_1.checked_div(&duration_2).unwrap());
    assert!(ratio.abs() < 1e-6);
}

#[test]
fn new() {
    let year = 2023;
    let month = 4;
    let day = 29;
    let date = chrono::Utc
        .with_ymd_and_hms(year, month, day, 14, 09, 0)
        .unwrap();
    let time_1 = Time::from(date.to_rfc2822().as_str());

    let time_2 = Time::new(29, 4, 2023, 14, 09, 0);
    assert!(time_1 == time_2.unwrap());

    let time_2 = Time::new(29, 4, 2023, 14, 09, 1);
    assert!(time_1 < time_2.unwrap());

    let time_2 = Time::new(29, 4, 2023, 14, 08, 59);
    assert!(time_1 > time_2.unwrap());
}

#[test]
fn division_by_a_zero_span_is_an_error() {
    let duration_1 = Duration::from_minutes(1);
    let duration_2 = Duration::from_minutes(0);
    assert_eq!(
        duration_1.checked_div(&duration_2),
        Err(TimeError { kind: TimeErrorKind::DivisionByZeroDuration })
    );
}

#[test]
fn division_gives_the_exact_fraction() {
    let ratio = Duration::from_seconds(-90).checked_div(&Duration::from_minutes(2)).unwrap();
    assert_eq!(ratio, Ratio { numerator: -90, denominator: 120 });
}

#[test]
fn spans_count_seconds() {
    assert_eq!(Duration::from_seconds(7).num_seconds(), 7);
    assert_eq!(Duration::from_minutes(3).num_seconds(), 180);
    assert_eq!(Duration::from_hours(2).num_seconds(), 7200);
    assert_eq!(Duration::from_hours(-1).num_seconds(), -3600);
    assert_eq!(Duration::from_hours(24), Duration::from_minutes(1440));
}

#[test]
fn leap_day_needs_a_leap_year() {
    let error = Time::new(29, 2, 2023, 0, 0, 0).unwrap_err();
    assert_eq!(error.kind, TimeErrorKind::InvalidCalendarDate);
    assert!(Time::new(29, 2, 2024, 0, 0, 0).is_ok());
    assert!(Time::new(29, 2, 1900, 0, 0, 0).is_err());
    assert!(Time::new(29, 2, 2000, 0, 0, 0).is_ok());
}

#[test]
fn impossible_components_are_rejected() {
    for (day, month, year, hour, minute, second) in [
        (30, 2, 2024, 0, 0, 0),
        (31, 4, 2023, 0, 0, 0),
        (0, 1, 2023, 0, 0, 0),
        (1, 0, 2023, 0, 0, 0),
        (1, 13, 2023, 0, 0, 0),
        (32, 1, 2023, 0, 0, 0),
        (1, 1, 2023, 24, 0, 0),
        (1, 1, 2023, 0, 60, 0),
        (1, 1, 2023, 0, 0, 60),
        (1, 1, 10000, 0, 0, 0),
        (1, 1, u32::MAX, 0, 0, 0),
    ] {
        let result = Time::new(day, month, year, hour, minute, second);
        assert_eq!(
            result.unwrap_err().kind,
            TimeErrorKind::InvalidCalendarDate,
            "{day}.{month}.{year} {hour}:{minute}:{second}"
        );
    }
}

#[test]
fn new_counts_seconds_from_the_epoch() {
    assert_eq!(Time::new(1, 1, 1970, 0, 0, 0).unwrap().timestamp(), 0);
    assert_eq!(Time::new(2, 1, 1970, 0, 0, 1).unwrap().timestamp(), 86_401);
    assert_eq!(Time::new(21, 1, 2023, 11, 25, 20).unwrap().timestamp(), 1_674_300_320);
    assert_eq!(Time::new(21, 1, 2023, 11, 25, 20).unwrap().utc_offset(), 0);
}

#[test]
fn the_four_digit_years_span_the_two_bounds() {
    let first = Time::new(1, 1, 0, 0, 0, 0).unwrap();
    let last = Time::new(31, 12, 9999, 23, 59, 59).unwrap();
    assert_eq!(first.timestamp(), FIRST_SECOND);
    assert_eq!(last.timestamp(), LAST_SECOND);
    assert_eq!(first.to_string(), "Sat, 1 Jan 0000 00:00:00 +0000");
    assert_eq!(last.to_string(), "Fri, 31 Dec 9999 23:59:59 +0000");
    assert_eq!((&last - &first).num_seconds(), LAST_SECOND - FIRST_SECOND);
}

#[test]
fn text_round_trips() {
    for (day, month, year, hour, minute, second) in [
        (1, 1, 0, 0, 0, 0),
        (29, 2, 2024, 23, 59, 59),
        (21, 1, 2023, 12, 25, 20),
        (9, 9, 999, 9, 9, 9),
        (31, 12, 9999, 23, 59, 59),
    ] {
        let time = Time::new(day, month, year, hour, minute, second).unwrap();
        let text = time.to_string();
        let read = Time::from(text.as_str());
        assert_eq!(read.to_string(), text);
        assert_eq!(read.timestamp(), time.timestamp());
        assert_eq!(read.utc_offset(), time.utc_offset());
        assert!(Time::is_timestamp(text.as_str()));
    }
}

#[test]
fn text_keeps_the_offset() {
    for text in [
        "Sat, 21 Jan 2023 12:25:20 +0100",
        "Sat, 21 Jan 2023 12:25:20 -0830",
        "Tue, 1 Jul 2003 10:52:37 +0200",
        "Fri, 31 Dec 9999 23:59:59 -2359",
        "Sat, 1 Jan 0000 00:00:00 +2359",
    ] {
        let time = Time::parse(text).unwrap();
        assert_eq!(time.to_string(), text);
    }
    let time = Time::parse("Sat, 21 Jan 2023 12:25:20 +0100").unwrap();
    assert_eq!(time.utc_offset(), 3600);
    assert_eq!(time.timestamp(), 1_674_300_320);
}

#[test]
fn parse_rejects_what_is_no_timestamp() {
    for text in ["", "yesterday", "Sun, 21 Jan 2023 12:25:20 +0100", "2023-01-21T12:25:20+01:00"] {
        assert_eq!(
            Time::parse(text).unwrap_err().kind,
            TimeErrorKind::TimeParseFailure,
            "{text}"
        );
        assert!(!Time::is_timestamp(text));
    }
}

#[test]
fn parse_rejects_a_local_year_beyond_four_digits() {
    assert!(Time::parse("Sat, 1 Jan 10000 00:00:00 +0000").is_err());
}

#[test]
fn equality_and_order_go_by_the_instant() {
    let here = Time::parse("Sat, 21 Jan 2023 12:25:20 +0100").unwrap();
    let there = Time::parse("Sat, 21 Jan 2023 11:25:20 +0000").unwrap();
    assert!(here == there);
    assert!(!(here < there));
    assert!(!(here > there));
    assert!(!here.is_before(&there));
    let later = Time::parse("Sat, 21 Jan 2023 11:25:21 +0000").unwrap();
    assert!(here < later);
    assert!(later > here);
    assert!(here != later);
    assert!(here.is_before(&later));
    assert!(!later.is_before(&here));
}

#[test]
fn civil_fields_are_local() {
    let time = Time::parse("Sat, 21 Jan 2023 23:25:20 +0100").unwrap();
    assert_eq!(time.year(), 2023);
    assert_eq!(time.month(), 1);
    assert_eq!(time.day(), 21);
    assert_eq!(time.hour(), 23);
    assert_eq!(time.minute(), 25);
    let civil = time.civil();
    assert_eq!(civil.second, 20);
    let time = Time::parse("Sat, 21 Jan 2023 23:25:20 -0100").unwrap();
    assert_eq!(time.day(), 21);
    assert_eq!(time.hour(), 23);
    let time = Time::new(22, 1, 2023, 0, 25, 20).unwrap();
    assert_eq!(time.day(), 22);
    assert_eq!(time.hour(), 0);
}

#[test]
fn adding_then_subtracting_gives_the_span_back() {
    let time = Time::parse("Sat, 21 Jan 2023 12:25:20 +0100").unwrap();
    for seconds in [0, 1, -1, 86_400, -86_400, 1_000_000_000] {
        let span = Duration::from_seconds(seconds);
        let moved = &time + &span;
        assert_eq!(&moved - &time, span);
        assert_eq!(moved.utc_offset(), time.utc_offset());
        let back = &moved - &span;
        assert!(back == time);
        assert_eq!(time.checked_add(&span).unwrap().timestamp(), moved.timestamp());
        assert_eq!(moved.checked_sub(&span).unwrap().timestamp(), time.timestamp());
    }
}

#[test]
fn adding_an_hour_shows_in_the_text() {
    let time = Time::parse("Sat, 21 Jan 2023 23:25:20 +0100").unwrap();
    let moved = &time + &Duration::from_hours(1);
    assert_eq!(moved.to_string(), "Sun, 22 Jan 2023 00:25:20 +0100");
    let moved = &time - &Duration::from_hours(24);
    assert_eq!(moved.to_string(), "Fri, 20 Jan 2023 23:25:20 +0100");
}

#[test]
fn checked_arithmetic_stops_at_the_bounds() {
    let last = Time::new(31, 12, 9999, 23, 59, 59).unwrap();
    assert!(last.checked_add(&Duration::from_seconds(1)).is_none());
    assert!(last.checked_add(&Duration::from_seconds(0)).is_some());
    assert!(last.checked_add(&Duration::from_seconds(i64::MAX)).is_none());
    assert!(last.checked_sub(&Duration::from_seconds(i64::MIN)).is_none());
    let first = Time::new(1, 1, 0, 0, 0, 0).unwrap();
    assert!(first.checked_sub(&Duration::from_seconds(1)).is_none());
    assert!(first.checked_add(&Duration::from_seconds(-1)).is_none());
    assert!(first.checked_add(&Duration::from_seconds(i64::MIN)).is_none());
    assert!(first.checked_sub(&Duration::from_seconds(i64::MAX)).is_none());
    assert_eq!(
        first.checked_add(&Duration::from_seconds(LAST_SECOND - FIRST_SECOND)).unwrap().timestamp(),
        LAST_SECOND
    );
}

#[test]
fn saturating_arithmetic_stays_at_the_bounds() {
    let time = Time::parse("Sat, 21 Jan 2023 12:25:20 +0100").unwrap();
    let far = time.saturating_add(&Duration::from_seconds(i64::MAX));
    assert_eq!(far.to_string(), "Fri, 31 Dec 9999 23:59:59 +0100");
    assert_eq!(far.timestamp(), LAST_SECOND - 3600);
    let early = time.saturating_sub(&Duration::from_seconds(i64::MAX));
    assert_eq!(early.to_string(), "Sat, 1 Jan 0000 00:00:00 +0100");
    let early = time.saturating_add(&Duration::from_seconds(i64::MIN));
    assert_eq!(early.timestamp(), FIRST_SECOND - 3600);
    let far = time.saturating_sub(&Duration::from_seconds(i64::MIN));
    assert_eq!(far.timestamp(), LAST_SECOND - 3600);
    let near = time.saturating_add(&Duration::from_seconds(5));
    assert_eq!(near.timestamp(), time.timestamp() + 5);
    let near = time.saturating_sub(&Duration::from_seconds(5));
    assert_eq!(near.timestamp(), time.timestamp() - 5);
}

#[test]
fn clock_readings_are_kept_or_moved_into_range() {
    let time = Time::from_clock(1_674_300_320, 3600);
    assert_eq!(time.to_string(), "Sat, 21 Jan 2023 12:25:20 +0100");
    let time = Time::from_clock(1_674_300_320, 3601);
    assert_eq!((time.timestamp(), time.utc_offset()), (1_674_300_320, 0));
    let time = Time::from_clock(1_674_300_320, 86_400);
    assert_eq!((time.timestamp(), time.utc_offset()), (1_674_300_320, 0));
    let time = Time::from_clock(i64::MAX, 0);
    assert_eq!((time.timestamp(), time.utc_offset()), (LAST_SECOND, 0));
    let time = Time::from_clock(i64::MIN, -60);
    assert_eq!((time.timestamp(), time.utc_offset()), (FIRST_SECOND, 0));
    let time = Time::from_clock(LAST_SECOND, 60);
    assert_eq!((time.timestamp(), time.utc_offset()), (LAST_SECOND, 0));
    let time = Time::from_clock(LAST_SECOND, -60);
    assert_eq!((time.timestamp(), time.utc_offset()), (LAST_SECOND, -60));
}

#[test]
fn now_is_about_now() {
    let first = Time::now();
    let second = Time::now();
    let gap = &second - &first;
    assert!(gap.num_seconds() >= 0);
    assert!(gap.num_seconds() < 5);
    assert!(Time::is_timestamp(first.to_string().as_str()));
}
