use timelog::parse_duration;
use timelog::Duration;
use timelog::DurationParseError;

#[test]
fn duration_hours_and_minutes() {
    let d = parse_duration("2h 30m").unwrap();
    assert_eq!(d, Duration { hours: 2, minutes: 30 });
    assert_eq!(d.checked_minutes(), Some(150));
}

#[test]
fn duration_hours_only() {
    let d = parse_duration("2h").unwrap();
    assert_eq!(d, Duration { hours: 2, minutes: 0 });
    assert_eq!(d.checked_minutes(), Some(120));
}

#[test]
fn duration_minutes_only() {
    let d = parse_duration("30m").unwrap();
    assert_eq!(d, Duration { hours: 0, minutes: 30 });
    assert_eq!(d.checked_minutes(), Some(30));
}

#[test]
fn duration_leading_spaces_before_minutes() {
    let d = parse_duration(" 30m").unwrap();
    assert_eq!(d, Duration { hours: 0, minutes: 30 });
}

#[test]
fn duration_no_space_between_fields() {
    let d = parse_duration("2h30m").unwrap();
    assert_eq!(d, Duration { hours: 2, minutes: 30 });
}

#[test]
fn duration_zero_is_valid() {
    let d = parse_duration("0h 0m").unwrap();
    assert_eq!(d, Duration { hours: 0, minutes: 0 });
    assert_eq!(d.checked_minutes(), Some(0));
}

#[test]
fn duration_empty_text() {
    assert_eq!(parse_duration(""), Err(DurationParseError::EmptyDuration));
}

#[test]
fn duration_spaces_only() {
    assert_eq!(parse_duration("   "), Err(DurationParseError::EmptyDuration));
}

#[test]
fn duration_bad_hour_digits() {
    assert_eq!(parse_duration("xh"), Err(DurationParseError::InvalidHourNumber));
}

#[test]
fn duration_bad_minute_digits() {
    assert_eq!(parse_duration("2h xm"), Err(DurationParseError::InvalidMinuteNumber));
}

#[test]
fn duration_hour_overflow() {
    assert_eq!(
        parse_duration("99999999999999999999h"),
        Err(DurationParseError::InvalidHourNumber)
    );
}

#[test]
fn duration_minute_overflow() {
    assert_eq!(
        parse_duration("99999999999999999999m"),
        Err(DurationParseError::InvalidMinuteNumber)
    );
}

#[test]
fn duration_largest_minute_count() {
    let d = parse_duration("9223372036854775807m").unwrap();
    assert_eq!(d, Duration { hours: 0, minutes: i64::MAX });
    assert_eq!(d.checked_minutes(), Some(i64::MAX));
}

#[test]
fn duration_total_beyond_machine_range() {
    let d = parse_duration("9223372036854775807h").unwrap();
    assert_eq!(d, Duration { hours: i64::MAX, minutes: 0 });
    assert_eq!(d.checked_minutes(), None);
}

#[test]
fn duration_bad_shape() {
    assert_eq!(parse_duration("abc"), Err(DurationParseError::InvalidFormat));
    assert_eq!(parse_duration("2h 30m extra"), Err(DurationParseError::InvalidFormat));
    assert_eq!(parse_duration("2H 30M"), Err(DurationParseError::InvalidFormat));
}
