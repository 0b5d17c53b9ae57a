//! Rendering an instant as text, delegated to the chrono crate.
//!
//! Calendar arithmetic and strftime formatting are chrono's job; this module
//! only fixes what is handed to it (a well-formed instant and one of the
//! preferred format strings) and names what comes back.

use vstd::prelude::*;

use chrono::TimeZone;

use crate::precision::{Instant, Precision};

verus! {

/// Second counts within this window are safely inside chrono's calendar
/// range (its dates span roughly years -262143 to 262142; this window stays
/// below year 255000 on either side).
pub const RENDER_SECS_BOUND: i64 = 8_000_000_000_000;

/// What chrono renders for an instant under a UTC offset and a strftime
/// format string: a pure function of its arguments.
pub uninterp spec fn chrono_format(
    offset_secs: int,
    secs: int,
    nanos: int,
    fmt: Seq<char>,
) -> Seq<char>;

/// `f` is one of the preferred per-precision display formats.
pub open spec fn is_preferred_format(f: Seq<char>) -> bool {
    exists|p: Precision| f == p.spec_preferred_format()
}

/// Relies on chrono: `FixedOffset::east_opt` accepts every sub-day offset;
/// `TimeZone::timestamp_opt` maps an in-range second count with a sub-second
/// nanosecond part to a single instant, returning none only when the seconds
/// leave its calendar range; `DateTime::format` with a valid strftime string
/// renders that instant from the instant, offset and format alone.
#[verifier::external_body]
fn chrono_render(i: &Instant, fmt: &str) -> (r: Option<String>)
    requires
        i.wf(),
        is_preferred_format(fmt@),
    ensures
        r matches Some(s) ==> s@ == chrono_format(
            i.offset_secs as int,
            i.secs as int,
            i.nanos as int,
            fmt@,
        ),
        -RENDER_SECS_BOUND <= i.secs <= RENDER_SECS_BOUND ==> r is Some,
{
    let off = match chrono::FixedOffset::east_opt(i.offset_secs) {
        Some(o) => o,
        None => return None,
    };
    match off.timestamp_opt(i.secs, i.nanos) {
        chrono::LocalResult::Single(dt) => Some(dt.format(fmt).to_string()),
        _ => None,
    }
}

/// Renders `i` under one of the preferred formats.
///
/// Succeeds for every instant whose seconds lie within
/// [`RENDER_SECS_BOUND`]; an instant beyond chrono's calendar range comes
/// back as `None` rather than a panic.
pub fn format_instant(i: &Instant, fmt: &str) -> (r: Option<String>)
    requires
        i.wf(),
        is_preferred_format(fmt@),
    ensures
        r matches Some(s) ==> s@ == chrono_format(
            i.offset_secs as int,
            i.secs as int,
            i.nanos as int,
            fmt@,
        ),
        -RENDER_SECS_BOUND <= i.secs <= RENDER_SECS_BOUND ==> r is Some,
{
    chrono_render(i, fmt)
}

} // verus!
