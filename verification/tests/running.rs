use ut::cmd::{run, run_opt};
use ut::error::UtError;
use ut::find::FindError;
use ut::precision::{Instant, Precision};
use ut::render::format_instant;
use ut::validate::IntoValidationError;

#[test]
fn epoch_formats_to_the_known_string() {
    assert_eq!(run("0", "second", 0), Ok(String::from("1970-01-01 00:00:00")));
}

#[test]
fn each_precision_has_its_fractional_digits() {
    assert_eq!(run("0", "millisecond", 0), Ok(String::from("1970-01-01 00:00:00.000")));
    assert_eq!(run("0", "microsecond", 0), Ok(String::from("1970-01-01 00:00:00.000000")));
    assert_eq!(run("0", "nanosecond", 0), Ok(String::from("1970-01-01 00:00:00.000000000")));
}

#[test]
fn a_thousand_milliseconds_print_as_one_second() {
    assert_eq!(run("1000", "millisecond", 0), Ok(String::from("1970-01-01 00:00:01.000")));
    assert_eq!(run("1", "second", 0), Ok(String::from("1970-01-01 00:00:01")));
}

#[test]
fn negative_timestamps_render_pre_epoch() {
    assert_eq!(run("-1", "second", 0), Ok(String::from("1969-12-31 23:59:59")));
    assert_eq!(run("-1", "nanosecond", 0), Ok(String::from("1969-12-31 23:59:59.999999999")));
}

#[test]
fn the_offset_shifts_the_rendered_time() {
    assert_eq!(run("0", "second", 3600), Ok(String::from("1970-01-01 01:00:00")));
    assert_eq!(run("0", "second", -3600), Ok(String::from("1969-12-31 23:00:00")));
}

#[test]
fn a_known_timestamp_renders_exactly() {
    assert_eq!(run("1431648000", "second", 0), Ok(String::from("2015-05-15 00:00:00")));
    assert_eq!(run("947638923004", "millisecond", 0), Ok(String::from("2000-01-12 01:02:03.004")));
}

#[test]
fn unknown_precision_fails_with_precision_error() {
    let r = run("0", "decade", 0);
    assert_eq!(
        r,
        Err(UtError::PrecisionError(FindError::NotFound(String::from("decade"))))
    );
    let msg = r.unwrap_err().into_validation_error();
    assert_eq!(
        msg,
        "Wrong precision. error:not found: decade. \
         possible names: [second, millisecond, microsecond, nanosecond]"
    );
}

#[test]
fn malformed_tokens_fail_with_wrong_timestamp() {
    assert_eq!(run("abc", "second", 0), Err(UtError::WrongTimestamp));
    assert_eq!(run("", "second", 0), Err(UtError::WrongTimestamp));
    let thirty_nines = "9".repeat(30);
    assert_eq!(run(&thirty_nines, "second", 0), Err(UtError::WrongTimestamp));
}

#[test]
fn a_bad_token_outranks_a_bad_precision() {
    assert_eq!(run("abc", "decade", 0), Err(UtError::WrongTimestamp));
}

#[test]
fn instants_beyond_the_calendar_fail_without_panicking() {
    assert_eq!(run("9000000000000000", "second", 0), Err(UtError::WrongTimestamp));
    assert_eq!(run("-9000000000000000", "second", 0), Err(UtError::WrongTimestamp));
}

#[test]
fn the_override_is_chosen_and_flagged() {
    let outcome = run_opt(Some("0"), Some("millisecond"), Precision::Second, 0).unwrap();
    assert_eq!(outcome.output, "1970-01-01 00:00:00.000");
    assert!(outcome.deprecated_precision);
}

#[test]
fn the_default_applies_without_a_flag() {
    let outcome = run_opt(Some("0"), None, Precision::Second, 0).unwrap();
    assert_eq!(outcome.output, "1970-01-01 00:00:00");
    assert!(!outcome.deprecated_precision);
}

#[test]
fn run_opt_propagates_both_errors() {
    assert_eq!(
        run_opt(Some("0"), Some("decade"), Precision::Second, 0),
        Err(UtError::PrecisionError(FindError::NotFound(String::from("decade"))))
    );
    assert_eq!(
        run_opt(Some("abc"), Some("second"), Precision::Second, 0),
        Err(UtError::WrongTimestamp)
    );
}

#[test]
fn wrong_timestamp_message_is_fixed() {
    assert_eq!(
        UtError::WrongTimestamp.into_validation_error(),
        "Wrong timestamp. error:not an integer in the supported range."
    );
}

#[test]
fn format_instant_renders_the_epoch() {
    let epoch = Instant { secs: 0, nanos: 0, offset_secs: 0 };
    assert_eq!(
        format_instant(&epoch, Precision::Second.preferred_format()),
        Some(String::from("1970-01-01 00:00:00"))
    );
}

#[test]
fn format_instant_declines_far_instants() {
    let far = Instant { secs: i64::MAX, nanos: 0, offset_secs: 0 };
    assert_eq!(format_instant(&far, Precision::Second.preferred_format()), None);
}

#[test]
fn sub_day_offsets_reach_the_boundaries() {
    assert_eq!(run("0", "second", 86_399), Ok(String::from("1970-01-01 23:59:59")));
    assert_eq!(run("0", "second", -86_399), Ok(String::from("1969-12-31 00:00:01")));
}
