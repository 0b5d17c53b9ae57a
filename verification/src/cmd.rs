//! The computation behind the parse command: from the two input tokens to
//! the formatted instant.
//!
//! The boundary layer extracts the raw tokens and prints; everything that
//! decides — token validation, precision resolution, the conversion and the
//! choice of format — happens here.

use vstd::prelude::*;

use crate::error::UtError;
use crate::find::FindError;
use crate::precision::{Precision, PrecisionError};
use crate::render::{chrono_format, format_instant, is_preferred_format, RENDER_SECS_BOUND};
use crate::timestamp::{int_token_value, is_int_token, parse_i64};

verus! {

/// The timestamp token is well-shaped and its value fits a signed 64-bit
/// integer.
pub open spec fn spec_token_ok(t: Seq<char>) -> bool {
    is_int_token(t) && i64::MIN <= int_token_value(t) <= i64::MAX
}

/// The instant named by `ts` under `p` lies safely within the supported
/// calendar range.
pub open spec fn spec_renderable(p: Precision, ts: int) -> bool {
    -(RENDER_SECS_BOUND as int) <= p.instant_secs(ts) <= (RENDER_SECS_BOUND as int)
}

/// What a run prints for a raw count `ts` of `p`'s units, displayed under
/// the UTC offset `offset_secs`.
pub open spec fn spec_output(p: Precision, offset_secs: int, ts: int) -> Seq<char> {
    chrono_format(offset_secs, p.instant_secs(ts), p.instant_nanos(ts), p.spec_preferred_format())
}

/// Extracts the timestamp value from the (always present) raw token.
pub fn get_timestamp(maybe_timestamp: Option<&str>) -> (r: Result<i64, UtError>)
    requires
        maybe_timestamp is Some,
    ensures
        maybe_timestamp matches Some(t) ==> match r {
            Ok(v) => spec_token_ok(t@) && v as int == int_token_value(t@),
            Err(e) => e == UtError::WrongTimestamp && !spec_token_ok(t@),
        },
{
    match maybe_timestamp {
        Some(s) => match parse_i64(s) {
            Some(v) => Ok(v),
            None => Err(UtError::WrongTimestamp),
        },
        None => {
            assert(false);
            Err(UtError::WrongTimestamp)
        },
    }
}

/// Resolves the precision name, interprets the timestamp token under it and
/// renders the instant under the given UTC offset.
///
/// A malformed or out-of-range token fails with `WrongTimestamp` before the
/// precision is looked at; an unknown precision name fails with
/// `PrecisionError` carrying the attempted name.
pub fn run(timestamp: &str, precision_name: &str, offset_secs: i32) -> (r: Result<String, UtError>)
    requires
        -86_400 < offset_secs < 86_400,
    ensures
        !spec_token_ok(timestamp@) ==> r == Err::<String, UtError>(UtError::WrongTimestamp),
        spec_token_ok(timestamp@) && Precision::spec_of_name(precision_name@) is None ==> (
        r matches Err(UtError::PrecisionError(FindError::NotFound(n))) && n@ == precision_name@),
        spec_token_ok(timestamp@) ==> (Precision::spec_of_name(precision_name@) matches Some(p)
            ==> match r {
            Ok(out) => out@ == spec_output(p, offset_secs as int, int_token_value(timestamp@)),
            Err(e) => e == UtError::WrongTimestamp && !spec_renderable(
                p,
                int_token_value(timestamp@),
            ),
        }),
{
    let ts = match parse_i64(timestamp) {
        Some(v) => v,
        None => return Err(UtError::WrongTimestamp),
    };
    let precision = match Precision::find_by_name(precision_name) {
        Ok(p) => p,
        Err(PrecisionError::WrongName(e)) => return Err(UtError::PrecisionError(e)),
    };
    render(precision, offset_secs, ts)
}

/// The outcome of a run whose precision may come from a deprecated
/// override: the line to print, and whether a deprecation notice is owed.
#[derive(Debug, Clone, PartialEq)]
pub struct RunOutcome {
    pub output: String,
    pub deprecated_precision: bool,
}

/// Like [`run`], with the precision name optional: an absent name falls back
/// to `default_precision`, a present one (the deprecated override path) is
/// resolved and chosen over the default, and the outcome says that a
/// deprecation notice is owed — without changing the output itself.
pub fn run_opt(
    timestamp: Option<&str>,
    precision_name: Option<&str>,
    default_precision: Precision,
    offset_secs: i32,
) -> (r: Result<RunOutcome, UtError>)
    requires
        timestamp is Some,
        -86_400 < offset_secs < 86_400,
    ensures
        timestamp matches Some(t) ==> {
            &&& !spec_token_ok(t@) ==> r == Err::<RunOutcome, UtError>(UtError::WrongTimestamp)
            &&& (spec_token_ok(t@) && precision_name is None) ==> match r {
                Ok(o) => o.output@ == spec_output(
                    default_precision,
                    offset_secs as int,
                    int_token_value(t@),
                ) && o.deprecated_precision == false,
                Err(e) => e == UtError::WrongTimestamp && !spec_renderable(
                    default_precision,
                    int_token_value(t@),
                ),
            }
            &&& spec_token_ok(t@) ==> (precision_name matches Some(n) ==> match Precision::spec_of_name(
                n@,
            ) {
                None => r matches Err(UtError::PrecisionError(FindError::NotFound(m))) && m@
                    == n@,
                Some(p) => match r {
                    Ok(o) => o.output@ == spec_output(p, offset_secs as int, int_token_value(t@))
                        && o.deprecated_precision == true,
                    Err(e) => e == UtError::WrongTimestamp && !spec_renderable(
                        p,
                        int_token_value(t@),
                    ),
                },
            })
        },
{
    let ts = match get_timestamp(timestamp) {
        Ok(v) => v,
        Err(e) => return Err(e),
    };
    let maybe_precision = match Precision::find_by_name_opt(precision_name) {
        Ok(m) => m,
        Err(PrecisionError::WrongName(e)) => return Err(UtError::PrecisionError(e)),
    };
    let deprecated_precision = maybe_precision.is_some();
    let precision = match maybe_precision {
        Some(p) => p,
        None => default_precision,
    };
    match render(precision, offset_secs, ts) {
        Ok(output) => Ok(RunOutcome { output, deprecated_precision }),
        Err(e) => Err(e),
    }
}

/// Interprets `ts` under `precision` and renders it under `offset_secs`.
fn render(precision: Precision, offset_secs: i32, ts: i64) -> (r: Result<String, UtError>)
    requires
        -86_400 < offset_secs < 86_400,
    ensures
        match r {
            Ok(out) => out@ == spec_output(precision, offset_secs as int, ts as int),
            Err(e) => e == UtError::WrongTimestamp && !spec_renderable(precision, ts as int),
        },
{
    let inst = precision.parse_timestamp(offset_secs, ts);
    let fmt = precision.preferred_format();
    proof {
        assert(is_preferred_format(fmt@)) by {
            assert(fmt@ == precision.spec_preferred_format());
        }
    }
    match format_instant(&inst, fmt) {
        Some(out) => Ok(out),
        None => Err(UtError::WrongTimestamp),
    }
}

/// What `Regex::is_match` with the timestamp pattern reports for a string:
/// a function of the characters alone.
pub uninterp spec fn timestamp_pattern_match(s: Seq<char>) -> bool;

/// Relies on regex's `Regex::is_match` with the (fixed, valid) pattern
/// `[-+]?\d+`: whether some substring matches is a function of the haystack
/// alone, and a haystack holding an ASCII digit always matches, since the
/// pattern needs exactly one `\d` and `\d` covers the ASCII digits.
#[verifier::external_body]
fn regex_is_timestamp(s: &str) -> (r: bool)
    ensures
        r == timestamp_pattern_match(s@),
        (exists|i: int| 0 <= i < s@.len() && 48 <= #[trigger] (s@[i] as int) <= 57) ==> r,
{
    let re = regex::Regex::new(r"[-+]?\d+").expect("wrong regex pattern.");
    re.is_match(s)
}

/// Validates a raw timestamp argument the way the command registers it:
/// accepted exactly when the timestamp pattern matches somewhere in it,
/// rejected with a message naming the offending input otherwise.
pub fn is_timestamp(s: String) -> (r: Result<(), String>)
    ensures
        r is Ok <==> timestamp_pattern_match(s@),
        r matches Err(m) ==> m@ == "TIMESTAMP must be a number. given: "@ + s@,
{
    if regex_is_timestamp(s.as_str()) {
        Ok(())
    } else {
        let mut m = "TIMESTAMP must be a number. given: ".to_owned();
        m.append(s.as_str());
        Err(m)
    }
}

} // verus!
