//! The environment-marker codec: parsing, spelling, and their round trip.

use launcher::{core_marker_value, parse_core_marker, LaunchError};

#[test]
fn parse_accepts_plain_decimal() {
    assert_eq!(parse_core_marker("42"), Ok(42));
    assert_eq!(parse_core_marker("0"), Ok(0));
    assert_eq!(parse_core_marker("7"), Ok(7));
    assert_eq!(parse_core_marker("1000"), Ok(1000));
}

#[test]
fn parse_accepts_leading_zeroes() {
    assert_eq!(parse_core_marker("007"), Ok(7));
    assert_eq!(parse_core_marker("00"), Ok(0));
}

#[test]
fn parse_rejects_empty_value() {
    assert_eq!(parse_core_marker(""), Err(LaunchError::MalformedEnvMarker));
}

#[test]
fn parse_rejects_non_digits() {
    assert_eq!(parse_core_marker("abc"), Err(LaunchError::MalformedEnvMarker));
    assert_eq!(parse_core_marker("4a"), Err(LaunchError::MalformedEnvMarker));
    assert_eq!(parse_core_marker("a4"), Err(LaunchError::MalformedEnvMarker));
    assert_eq!(parse_core_marker("-1"), Err(LaunchError::MalformedEnvMarker));
    assert_eq!(parse_core_marker("+1"), Err(LaunchError::MalformedEnvMarker));
    assert_eq!(parse_core_marker(" 1"), Err(LaunchError::MalformedEnvMarker));
    assert_eq!(parse_core_marker("1 "), Err(LaunchError::MalformedEnvMarker));
    assert_eq!(parse_core_marker("1.5"), Err(LaunchError::MalformedEnvMarker));
}

#[test]
fn parse_rejects_values_too_large_for_a_core_index() {
    // Larger than any usize on any platform.
    assert_eq!(
        parse_core_marker("99999999999999999999999999"),
        Err(LaunchError::MalformedEnvMarker)
    );
}

#[test]
fn parse_accepts_the_largest_core_index() {
    let max = usize::MAX.to_string();
    assert_eq!(parse_core_marker(&max), Ok(usize::MAX));
}

#[test]
fn spelling_is_canonical_decimal() {
    assert_eq!(core_marker_value(0), "0");
    assert_eq!(core_marker_value(7), "7");
    assert_eq!(core_marker_value(10), "10");
    assert_eq!(core_marker_value(1337), "1337");
}

#[test]
fn round_trip_gives_the_core_back() {
    for core in [0usize, 1, 9, 10, 99, 12345, usize::MAX] {
        let spelled = core_marker_value(core);
        assert_eq!(parse_core_marker(&spelled), Ok(core));
    }
}
