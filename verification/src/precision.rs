//! The unit in which a raw integer timestamp is interpreted, and its
//! conversion to a calendar instant.
//!
//! Each [`Precision`] carries a fixed scale relative to seconds and a fixed
//! display format.  Interpreting a raw signed count of units since the epoch
//! splits it into whole seconds and a non-negative sub-second nanosecond
//! part; both are pinned down exactly by the contracts here.

use vstd::arithmetic::div_mod::{
    lemma_fundamental_div_mod, lemma_fundamental_div_mod_converse, lemma_mod_bound,
};
use vstd::prelude::*;

use crate::find::{self, spec_join, FindByName, FindError};
use crate::validate::IntoValidationError;

verus! {

pub const NANOS_PER_SEC: i64 = 1_000_000_000;

/// A point in time: whole seconds since the Unix epoch, a sub-second
/// nanosecond part, and the UTC offset (in seconds) under which it is to be
/// displayed.
#[derive(Debug, Clone, Copy, PartialEq, Eq, Structural)]
pub struct Instant {
    pub secs: i64,
    pub nanos: u32,
    pub offset_secs: i32,
}

impl Instant {
    pub open spec fn wf(self) -> bool {
        &&& self.nanos < 1_000_000_000
        &&& -86_400 < self.offset_secs < 86_400
    }
}

/// Failure to resolve a precision name.
#[derive(Debug, Clone, PartialEq)]
pub enum PrecisionError {
    WrongName(FindError),
}

impl core::convert::From<FindError> for PrecisionError {
    fn from(e: FindError) -> (r: Self) {
        PrecisionError::WrongName(e)
    }
}

impl vstd::std_specs::convert::FromSpecImpl<FindError> for PrecisionError {
    open spec fn obeys_from_spec() -> bool {
        true
    }

    open spec fn from_spec(e: FindError) -> Self {
        PrecisionError::WrongName(e)
    }
}

/// The validation message of a precision lookup failure: it names the
/// attempted input and, for a failed lookup, lists every canonical precision
/// name.
pub open spec fn spec_precision_validation_message(e: PrecisionError) -> Seq<char> {
    match e {
        PrecisionError::WrongName(FindError::NotFound(n)) => "Wrong precision. error:not found: "@
            + n@ + ". possible names: ["@ + "second, millisecond, microsecond, nanosecond"@
            + "]"@,
        PrecisionError::WrongName(FindError::Ambiguous(n)) => "Wrong precision. error:ambiguous name: "@
            + n@,
    }
}

impl IntoValidationError for PrecisionError {
    fn into_validation_error(self) -> (r: String)
        ensures
            r@ == spec_precision_validation_message(self),
    {
        match self {
            PrecisionError::WrongName(FindError::NotFound(n)) => {
                let names = Precision::possible_names();
                let out = find::render_not_found(
                    "Wrong precision. error:not found: ",
                    n.as_str(),
                    &names,
                );
                proof {
                    lemma_precision_names_joined(names.deep_view());
                }
                out
            },
            PrecisionError::WrongName(FindError::Ambiguous(n)) => {
                let mut out = "Wrong precision. error:ambiguous name: ".to_owned();
                out.append(n.as_str());
                out
            },
        }
    }
}

/// The canonical precision names, joined with a comma, give the fixed list
/// that validation messages print.
proof fn lemma_precision_names_joined(parts: Seq<Seq<char>>)
    requires
        parts.len() == 4,
        parts[0] == "second"@,
        parts[1] == "millisecond"@,
        parts[2] == "microsecond"@,
        parts[3] == "nanosecond"@,
    ensures
        spec_join(parts, ", "@) == "second, millisecond, microsecond, nanosecond"@,
{
    reveal_strlit("second");
    reveal_strlit("millisecond");
    reveal_strlit("microsecond");
    reveal_strlit("nanosecond");
    reveal_strlit(", ");
    reveal_strlit("second, millisecond, microsecond, nanosecond");
    assert(parts.drop_last() =~= seq!["second"@, "millisecond"@, "microsecond"@]);
    assert(parts.drop_last().drop_last() =~= seq!["second"@, "millisecond"@]);
    assert(parts.drop_last().drop_last().drop_last() =~= seq!["second"@]);
    assert(spec_join(seq!["second"@], ", "@) == "second"@);
    assert(spec_join(seq!["second"@, "millisecond"@], ", "@) == "second"@ + ", "@
        + "millisecond"@);
    assert(spec_join(seq!["second"@, "millisecond"@, "microsecond"@], ", "@) == ("second"@ + ", "@
        + "millisecond"@) + ", "@ + "microsecond"@);
    assert(spec_join(parts, ", "@) =~= "second, millisecond, microsecond, nanosecond"@);
}

/// The supported time units for interpreting a raw integer timestamp.
#[derive(Debug, Clone, Copy, PartialEq, Eq, Structural)]
pub enum Precision {
    Second,
    Millisecond,
    Microsecond,
    Nanosecond,
}

impl FindByName for Precision {
    open spec fn spec_name(self) -> Seq<char> {
        match self {
            Precision::Second => "second"@,
            Precision::Millisecond => "millisecond"@,
            Precision::Microsecond => "microsecond"@,
            Precision::Nanosecond => "nanosecond"@,
        }
    }

    open spec fn variants() -> Seq<Precision> {
        seq![
            Precision::Second,
            Precision::Millisecond,
            Precision::Microsecond,
            Precision::Nanosecond,
        ]
    }

    proof fn lemma_names_unique() {
        reveal_strlit("second");
        reveal_strlit("millisecond");
        reveal_strlit("microsecond");
        reveal_strlit("nanosecond");
        assert("second"@.len() == 6);
        assert("millisecond"@.len() == 11);
        assert("microsecond"@.len() == 11);
        assert("nanosecond"@.len() == 10);
        assert("millisecond"@[2] == 'l');
        assert("microsecond"@[2] == 'c');
    }

    proof fn lemma_variants_complete(v: Self) {
        match v {
            Precision::Second => assert(Self::variants()[0] == v),
            Precision::Millisecond => assert(Self::variants()[1] == v),
            Precision::Microsecond => assert(Self::variants()[2] == v),
            Precision::Nanosecond => assert(Self::variants()[3] == v),
        }
    }

    fn possible_values() -> (r: Vec<Precision>) {
        let mut r: Vec<Precision> = Vec::new();
        r.push(Precision::Second);
        r.push(Precision::Millisecond);
        r.push(Precision::Microsecond);
        r.push(Precision::Nanosecond);
        proof {
            assert(r@ =~= Self::variants());
        }
        r
    }

    fn name(self) -> (r: &'static str) {
        match self {
            Precision::Second => "second",
            Precision::Millisecond => "millisecond",
            Precision::Microsecond => "microsecond",
            Precision::Nanosecond => "nanosecond",
        }
    }
}

impl Precision {
    /// How many nanoseconds one unit of this precision spans.
    pub open spec fn nanos_per_unit(self) -> int {
        match self {
            Precision::Second => 1_000_000_000,
            Precision::Millisecond => 1_000_000,
            Precision::Microsecond => 1_000,
            Precision::Nanosecond => 1,
        }
    }

    /// A raw count of units, as nanoseconds since the epoch.
    pub open spec fn total_nanos(self, ts: int) -> int {
        ts * self.nanos_per_unit()
    }

    /// The whole-second part of a raw count of units (floored, so pre-epoch
    /// instants get a non-negative sub-second part).
    pub open spec fn instant_secs(self, ts: int) -> int {
        self.total_nanos(ts) / (NANOS_PER_SEC as int)
    }

    /// The sub-second nanosecond part of a raw count of units.
    pub open spec fn instant_nanos(self, ts: int) -> int {
        self.total_nanos(ts) % (NANOS_PER_SEC as int)
    }

    /// The variant whose canonical name is `name`, if any.
    pub open spec fn spec_of_name(name: Seq<char>) -> Option<Precision> {
        if name == "second"@ {
            Some(Precision::Second)
        } else if name == "millisecond"@ {
            Some(Precision::Millisecond)
        } else if name == "microsecond"@ {
            Some(Precision::Microsecond)
        } else if name == "nanosecond"@ {
            Some(Precision::Nanosecond)
        } else {
            None
        }
    }

    /// Resolves a precision name, failing with a wrapped `NotFound` when the
    /// name matches no variant.
    pub fn find_by_name(name: &str) -> (r: Result<Precision, PrecisionError>)
        ensures
            match Self::spec_of_name(name@) {
                Some(p) => r == Ok::<Precision, PrecisionError>(p),
                None => r matches Err(PrecisionError::WrongName(FindError::NotFound(n))) && n@
                    == name@,
            },
    {
        let r = find::find_by_name::<Precision>(name);
        proof {
            Self::lemma_find_matches_spec_of_name(r, name@);
        }
        match r {
            Ok(p) => Ok(p),
            Err(e) => Err(PrecisionError::WrongName(e)),
        }
    }

    /// Resolves an optional precision name; `None` passes through.
    pub fn find_by_name_opt(name: Option<&str>) -> (r: Result<
        Option<Precision>,
        PrecisionError,
    >)
        ensures
            match name {
                None => r == Ok::<Option<Precision>, PrecisionError>(None),
                Some(n) => match Self::spec_of_name(n@) {
                    Some(p) => r == Ok::<Option<Precision>, PrecisionError>(Some(p)),
                    None => r matches Err(PrecisionError::WrongName(FindError::NotFound(m)))
                        && m@ == n@,
                },
            },
    {
        match name {
            None => Ok(None),
            Some(n) => match Self::find_by_name(n) {
                Ok(p) => Ok(Some(p)),
                Err(e) => Err(e),
            },
        }
    }

    /// The canonical precision names, in declaration order.
    pub fn possible_names() -> (r: Vec<String>)
        ensures
            r.deep_view() =~= seq!["second"@, "millisecond"@, "microsecond"@, "nanosecond"@],
    {
        let names = find::possible_names::<Precision>();
        proof {
            assert(names.deep_view().len() == 4);
            assert(names.deep_view()[0] == "second"@);
            assert(names.deep_view()[1] == "millisecond"@);
            assert(names.deep_view()[2] == "microsecond"@);
            assert(names.deep_view()[3] == "nanosecond"@);
        }
        names
    }

    /// The generic lookup's outcome, restated over `spec_of_name`.
    proof fn lemma_find_matches_spec_of_name(r: Result<Precision, FindError>, name: Seq<char>)
        requires
            match r {
                Ok(v) => Self::variants().contains(v) && v.spec_name() == name,
                Err(e) => {
                    &&& e matches FindError::NotFound(n) && n@ == name
                    &&& forall|i: int|
                        0 <= i < Self::variants().len() ==> Self::variants()[i].spec_name()
                            != name
                },
            },
        ensures
            match r {
                Ok(v) => Self::spec_of_name(name) == Some(v),
                Err(e) => Self::spec_of_name(name) is None,
            },
    {
        Self::lemma_names_unique();
        match r {
            Ok(v) => {
                match v {
                    Precision::Second => assert(name == "second"@),
                    Precision::Millisecond => {
                        assert(name == "millisecond"@);
                        assert(Self::variants()[1].spec_name() == "millisecond"@);
                        assert(Self::variants()[0].spec_name() != Self::variants()[1].spec_name());
                    },
                    Precision::Microsecond => {
                        assert(name == "microsecond"@);
                        assert(Self::variants()[0].spec_name() != Self::variants()[2].spec_name());
                        assert(Self::variants()[1].spec_name() != Self::variants()[2].spec_name());
                    },
                    Precision::Nanosecond => {
                        assert(name == "nanosecond"@);
                        assert(Self::variants()[0].spec_name() != Self::variants()[3].spec_name());
                        assert(Self::variants()[1].spec_name() != Self::variants()[3].spec_name());
                        assert(Self::variants()[2].spec_name() != Self::variants()[3].spec_name());
                    },
                }
            },
            Err(_) => {
                assert(Self::variants()[0].spec_name() != name);
                assert(Self::variants()[1].spec_name() != name);
                assert(Self::variants()[2].spec_name() != name);
                assert(Self::variants()[3].spec_name() != name);
            },
        }
    }

    /// Interprets `timestamp` as a count of this precision's units since the
    /// epoch, as an instant displayed under the UTC offset `offset_secs`.
    pub fn parse_timestamp(self, offset_secs: i32, timestamp: i64) -> (r: Instant)
        requires
            -86_400 < offset_secs < 86_400,
        ensures
            r.wf(),
            r.offset_secs == offset_secs,
            r.secs as int == self.instant_secs(timestamp as int),
            r.nanos as int == self.instant_nanos(timestamp as int),
    {
        let (ups, npu): (i64, i64) = match self {
            Precision::Second => (1, 1_000_000_000),
            Precision::Millisecond => (1_000, 1_000_000),
            Precision::Microsecond => (1_000_000, 1_000),
            Precision::Nanosecond => (1_000_000_000, 1),
        };
        let (secs, nanos) = split_units(timestamp, ups, npu);
        Instant { secs, nanos, offset_secs }
    }

    /// The display format of this precision: date and time to the second,
    /// with as many fractional digits as the unit is fine.
    pub open spec fn spec_preferred_format(self) -> Seq<char> {
        match self {
            Precision::Second => "%Y-%m-%d %H:%M:%S"@,
            Precision::Millisecond => "%Y-%m-%d %H:%M:%S%.3f"@,
            Precision::Microsecond => "%Y-%m-%d %H:%M:%S%.6f"@,
            Precision::Nanosecond => "%Y-%m-%d %H:%M:%S%.9f"@,
        }
    }

    pub fn preferred_format(self) -> (r: &'static str)
        ensures
            r@ == self.spec_preferred_format(),
    {
        match self {
            Precision::Second => "%Y-%m-%d %H:%M:%S",
            Precision::Millisecond => "%Y-%m-%d %H:%M:%S%.3f",
            Precision::Microsecond => "%Y-%m-%d %H:%M:%S%.6f",
            Precision::Nanosecond => "%Y-%m-%d %H:%M:%S%.9f",
        }
    }
}

/// Two raw counts that span the same number of nanoseconds name the same
/// instant, whatever their precisions.
pub proof fn lemma_scale_correctness(p1: Precision, p2: Precision, t1: int, t2: int)
    requires
        p1.total_nanos(t1) == p2.total_nanos(t2),
    ensures
        p1.instant_secs(t1) == p2.instant_secs(t2),
        p1.instant_nanos(t1) == p2.instant_nanos(t2),
{
}

/// A thousand milliseconds are one second: a raw count under millisecond
/// precision names the same instant as its thousandth under second
/// precision.
pub proof fn lemma_millisecond_scale(ts: int)
    ensures
        Precision::Millisecond.instant_secs(1000 * ts) == Precision::Second.instant_secs(ts),
        Precision::Millisecond.instant_nanos(1000 * ts) == Precision::Second.instant_nanos(ts),
{
    assert((1000 * ts) * 1_000_000 == ts * 1_000_000_000) by (nonlinear_arith);
    lemma_scale_correctness(Precision::Millisecond, Precision::Second, 1000 * ts, ts);
}

/// Splits a signed count of units into floored whole seconds and the
/// non-negative nanosecond remainder, for a unit spanning `npu` nanoseconds
/// with `ups` units to the second.
fn split_units(ts: i64, ups: i64, npu: i64) -> (r: (i64, u32))
    requires
        1 <= ups <= 1_000_000_000,
        1 <= npu <= 1_000_000_000,
        ups as int * npu as int == 1_000_000_000,
    ensures
        r.1 < 1_000_000_000,
        r.0 as int == (ts as int * npu as int) / 1_000_000_000,
        r.1 as int == (ts as int * npu as int) % 1_000_000_000,
{
    proof {
        lemma_fundamental_div_mod(ts as int, ups as int);
        lemma_mod_bound(ts as int, ups as int);
        let q = ts as int / ups as int;
        let m = ts as int % ups as int;
        assert(i64::MIN <= q <= i64::MAX) by (nonlinear_arith)
            requires
                ts as int == ups as int * q + m,
                0 <= m && m < (ups as int),
                1 <= (ups as int),
                i64::MIN <= ts as int <= i64::MAX,
        ;
    }
    let secs = ts.checked_div_euclid(ups).unwrap();
    let rem = ts.checked_rem_euclid(ups).unwrap();
    proof {
        assert(0 <= rem as int * npu as int && rem as int * npu as int <= 1_000_000_000 - npu
            as int) by (nonlinear_arith)
            requires
                0 <= (rem as int) && (rem as int) < (ups as int),
                1 <= npu as int,
                ups as int * npu as int == 1_000_000_000,
        ;
        assert(ts as int * npu as int == secs as int * 1_000_000_000 + rem as int * npu
            as int) by (nonlinear_arith)
            requires
                ts as int == ups as int * secs as int + rem as int,
                ups as int * npu as int == 1_000_000_000,
        ;
        lemma_fundamental_div_mod_converse(
            ts as int * npu as int,
            1_000_000_000,
            secs as int,
            rem as int * npu as int,
        );
    }
    let nanos = (rem * npu) as u32;
    (secs, nanos)
}

} // verus!
