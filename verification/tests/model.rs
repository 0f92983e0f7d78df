use racetime::UDuration;
use racetime::model::{DurationError, RaceStatusValue, parse_django_duration, parse_optional_django_duration, race_is_active};

fn parts(d: UDuration) -> (u64, u32) {
    (d.as_secs(), d.subsec_nanos())
}

#[test]
fn django_durations_are_read() {
    assert_eq!(parse_django_duration("P0DT0H0M0S").map(parts), Ok((0, 0)));
    assert_eq!(parse_django_duration("P0DT24H0M0S").map(parts), Ok((86400, 0)));
    assert_eq!(parse_django_duration("P1DT2H3M4S").map(parts), Ok((93784, 0)));
    assert_eq!(parse_django_duration("P0DT0H0M15.250000S").map(parts), Ok((15, 250_000_000)));
    assert_eq!(parse_django_duration("P0DT0H0M0.5S").map(parts), Ok((0, 5_000)));
    assert_eq!(parse_django_duration("P0DT0H0M1.2500000S").map(parts), Ok((3, 500_000_000)));
    assert_eq!(parse_django_duration("P007DT0H0M0S").map(parts), Ok((604800, 0)));
}

#[test]
fn malformed_django_durations_are_refused() {
    for text in ["", "P", "PT1H", "P0DT0H0M0", "P0DT0H0M0.S", "P0DT0H0M0SS", "P0D0H0M0S", "p0DT0H0M0S", "P0DT0H0M-1S", "P0DT0H0M 1S", " P0DT0H0M0S", "P0DT0H0M0S\n", "P0DT0HM0S"] {
        assert_eq!(parse_django_duration(text).map(parts), Err(DurationError::Format), "{text:?}");
    }
}

#[test]
fn oversized_django_durations_are_refused() {
    assert_eq!(parse_django_duration("P18446744073709551616DT0H0M0S").map(parts), Err(DurationError::Number));
    assert_eq!(parse_django_duration("P213503982334602DT0H0M0S").map(parts), Err(DurationError::Overflow));
    assert_eq!(parse_django_duration("P0DT0H0M18446744073709551615S").map(parts), Ok((u64::MAX, 0)));
    assert_eq!(parse_django_duration("P0DT0H1M18446744073709551615S").map(parts), Err(DurationError::Overflow));
    assert_eq!(parse_django_duration("P0DT0H0M0.99999999999999999999S").map(parts), Err(DurationError::Number));
    assert_eq!(parse_django_duration("P1DT99999999999999999999H0M0S").map(parts), Err(DurationError::Number));
    assert_eq!(parse_django_duration("P213503982334602DT99999999999999999999H0M0S").map(parts), Err(DurationError::Overflow));
}

#[test]
fn optional_django_durations() {
    assert_eq!(parse_optional_django_duration(None).map(|d| d.map(parts)), Ok(None));
    assert_eq!(parse_optional_django_duration(Some("P0DT1H0M0S")).map(|d| d.map(parts)), Ok(Some((3600, 0))));
    assert_eq!(parse_optional_django_duration(Some("1:00:00")).map(|d| d.map(parts)), Err(DurationError::Format));
}

#[test]
fn finished_and_cancelled_races_are_not_handled() {
    assert!(race_is_active(RaceStatusValue::Open));
    assert!(race_is_active(RaceStatusValue::Invitational));
    assert!(race_is_active(RaceStatusValue::Pending));
    assert!(race_is_active(RaceStatusValue::InProgress));
    assert!(!race_is_active(RaceStatusValue::Finished));
    assert!(!race_is_active(RaceStatusValue::Cancelled));
}
