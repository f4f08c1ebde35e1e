use timelog::parse_datetime_or_now;
use timelog::parse_datetime_with;
use timelog::Timestamp;

const FIXED_NOW: Timestamp = Timestamp { seconds: 1_600_000_000, nanos: 42 };

#[test]
fn datetime_absent_resolves_to_injected_now() {
    assert_eq!(parse_datetime_with(None, FIXED_NOW), Ok(FIXED_NOW));
}

#[test]
fn datetime_text_resolves_to_its_instant() {
    let t = parse_datetime_with(Some("2001-09-09T01:46:40Z"), FIXED_NOW).unwrap();
    assert_eq!(t, Timestamp { seconds: 1_000_000_000, nanos: 0 });
}

#[test]
fn datetime_text_with_offset() {
    // One hour east of UTC: one hour before the same wall-clock reading in UTC.
    let utc = parse_datetime_with(Some("2001-09-09T01:46:40+00:00"), FIXED_NOW).unwrap();
    let east = parse_datetime_with(Some("2001-09-09T01:46:40+01:00"), FIXED_NOW).unwrap();
    assert_eq!(utc.seconds, 1_000_000_000);
    assert_eq!(east.seconds, 1_000_000_000 - 3600);
}

#[test]
fn datetime_bad_text_is_rejected() {
    let r = parse_datetime_with(Some("not a datetime"), FIXED_NOW);
    let e = r.unwrap_err();
    assert!(!e.message.is_empty());
}

#[test]
fn datetime_text_ignores_injected_now() {
    let a = parse_datetime_with(Some("2001-09-09T01:46:40Z"), FIXED_NOW).unwrap();
    let b = parse_datetime_with(
        Some("2001-09-09T01:46:40Z"),
        Timestamp { seconds: 7, nanos: 9 },
    )
    .unwrap();
    assert_eq!(a, b);
}

#[test]
fn datetime_now_is_monotonic() {
    let a = parse_datetime_or_now(None).unwrap();
    let b = parse_datetime_or_now(None).unwrap();
    assert!((b.seconds, b.nanos) >= (a.seconds, a.nanos));
}

#[test]
fn datetime_or_now_still_parses_text() {
    let t = parse_datetime_or_now(Some("2001-09-09T01:46:40Z")).unwrap();
    assert_eq!(t, Timestamp { seconds: 1_000_000_000, nanos: 0 });
}
