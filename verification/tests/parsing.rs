use ut::cmd::{get_timestamp, is_timestamp};
use ut::error::UtError;
use ut::precision::{Instant, Precision};
use ut::timestamp::parse_i64;

#[test]
fn epoch_parses_to_epoch_instant() {
    let epoch = Instant { secs: 0, nanos: 0, offset_secs: 0 };
    assert_eq!(Precision::Second.parse_timestamp(0, 0), epoch);
    assert_eq!(Precision::Millisecond.parse_timestamp(0, 0), epoch);
    assert_eq!(Precision::Nanosecond.parse_timestamp(0, 0), epoch);
}

#[test]
fn millisecond_scale_matches_second() {
    assert_eq!(
        Precision::Millisecond.parse_timestamp(0, 1000),
        Precision::Second.parse_timestamp(0, 1)
    );
    assert_eq!(
        Precision::Millisecond.parse_timestamp(0, -3000),
        Precision::Second.parse_timestamp(0, -3)
    );
    assert_eq!(
        Precision::Microsecond.parse_timestamp(0, 1_000_000),
        Precision::Second.parse_timestamp(0, 1)
    );
}

#[test]
fn negative_timestamps_floor_toward_minus_infinity() {
    assert_eq!(
        Precision::Millisecond.parse_timestamp(0, -1),
        Instant { secs: -1, nanos: 999_000_000, offset_secs: 0 }
    );
    assert_eq!(
        Precision::Nanosecond.parse_timestamp(0, -1),
        Instant { secs: -1, nanos: 999_999_999, offset_secs: 0 }
    );
    assert_eq!(
        Precision::Second.parse_timestamp(0, -1),
        Instant { secs: -1, nanos: 0, offset_secs: 0 }
    );
}

#[test]
fn parse_i64_accepts_signed_decimals() {
    assert_eq!(parse_i64("0"), Some(0));
    assert_eq!(parse_i64("42"), Some(42));
    assert_eq!(parse_i64("+5"), Some(5));
    assert_eq!(parse_i64("-7"), Some(-7));
    assert_eq!(parse_i64("007"), Some(7));
}

#[test]
fn parse_i64_covers_the_64_bit_extremes() {
    assert_eq!(parse_i64("9223372036854775807"), Some(i64::MAX));
    assert_eq!(parse_i64("-9223372036854775808"), Some(i64::MIN));
    assert_eq!(parse_i64("9223372036854775808"), None);
    assert_eq!(parse_i64("-9223372036854775809"), None);
}

#[test]
fn parse_i64_rejects_malformed_tokens() {
    assert_eq!(parse_i64(""), None);
    assert_eq!(parse_i64("+"), None);
    assert_eq!(parse_i64("-"), None);
    assert_eq!(parse_i64("12a3"), None);
    assert_eq!(parse_i64("1 2"), None);
    assert_eq!(parse_i64("--1"), None);
}

#[test]
fn thirty_nines_fail_as_wrong_timestamp() {
    let token = "9".repeat(30);
    assert_eq!(parse_i64(&token), None);
    assert_eq!(get_timestamp(Some(&token)), Err(UtError::WrongTimestamp));
}

#[test]
fn get_timestamp_parses_present_tokens() {
    assert_eq!(get_timestamp(Some("42")), Ok(42));
    assert_eq!(get_timestamp(Some("-1")), Ok(-1));
    assert_eq!(get_timestamp(Some("abc")), Err(UtError::WrongTimestamp));
}

#[test]
fn is_timestamp_accepts_digit_bearing_input() {
    assert!(is_timestamp(String::from("123")).is_ok());
    assert!(is_timestamp(String::from("-123")).is_ok());
    assert!(is_timestamp(String::from("+9")).is_ok());
}

#[test]
fn is_timestamp_rejects_digitless_input() {
    assert_eq!(
        is_timestamp(String::from("abc")),
        Err(String::from("TIMESTAMP must be a number. given: abc"))
    );
    assert_eq!(
        is_timestamp(String::from("")),
        Err(String::from("TIMESTAMP must be a number. given: "))
    );
}
