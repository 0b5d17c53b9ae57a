//! Named relative days and their resolution against a clock provider.

use vstd::prelude::*;

use crate::find::{self, spec_join, FindByName, FindError};
use crate::provider::{Date, DateTimeProvider};
use crate::validate::IntoValidationError;

verus! {

/// Failure to resolve a preset name.
#[derive(Debug, Clone, PartialEq)]
pub enum PresetError {
    WrongName(FindError),
}

impl core::convert::From<FindError> for PresetError {
    fn from(e: FindError) -> (r: Self) {
        PresetError::WrongName(e)
    }
}

impl vstd::std_specs::convert::FromSpecImpl<FindError> for PresetError {
    open spec fn obeys_from_spec() -> bool {
        true
    }

    open spec fn from_spec(e: FindError) -> Self {
        PresetError::WrongName(e)
    }
}

/// The validation message of a preset lookup failure: it names the attempted
/// input and, for a failed lookup, lists every canonical preset name.
pub open spec fn spec_preset_validation_message(e: PresetError) -> Seq<char> {
    match e {
        PresetError::WrongName(FindError::NotFound(n)) => "Wrong preset. error:not found: "@
            + n@ + ". possible names: ["@ + "today, tomorrow, yesterday"@ + "]"@,
        PresetError::WrongName(FindError::Ambiguous(n)) => "Wrong preset. error:ambiguous name: "@
            + n@,
    }
}

impl IntoValidationError for PresetError {
    fn into_validation_error(self) -> (r: String)
        ensures
            r@ == spec_preset_validation_message(self),
    {
        match self {
            PresetError::WrongName(FindError::NotFound(n)) => {
                let names = Preset::possible_names();
                let out = find::render_not_found(
                    "Wrong preset. error:not found: ",
                    n.as_str(),
                    &names,
                );
                proof {
                    lemma_preset_names_joined(names.deep_view());
                }
                out
            },
            PresetError::WrongName(FindError::Ambiguous(n)) => {
                let mut out = "Wrong preset. error:ambiguous name: ".to_owned();
                out.append(n.as_str());
                out
            },
        }
    }
}

/// The canonical preset names, joined with a comma, give the fixed list that
/// validation messages print.
proof fn lemma_preset_names_joined(parts: Seq<Seq<char>>)
    requires
        parts.len() == 3,
        parts[0] == "today"@,
        parts[1] == "tomorrow"@,
        parts[2] == "yesterday"@,
    ensures
        spec_join(parts, ", "@) == "today, tomorrow, yesterday"@,
{
    reveal_strlit("today");
    reveal_strlit("tomorrow");
    reveal_strlit("yesterday");
    reveal_strlit(", ");
    reveal_strlit("today, tomorrow, yesterday");
    assert(parts.drop_last() =~= seq!["today"@, "tomorrow"@]);
    assert(parts.drop_last().drop_last() =~= seq!["today"@]);
    assert(spec_join(seq!["today"@], ", "@) == "today"@);
    assert(spec_join(seq!["today"@, "tomorrow"@], ", "@) == "today"@ + ", "@ + "tomorrow"@);
    assert(spec_join(parts, ", "@) =~= "today, tomorrow, yesterday"@);
}

/// The named relative days, each a fixed whole-day offset from the
/// provider's today.
#[derive(Debug, Clone, Copy, PartialEq, Eq, Structural)]
pub enum Preset {
    Today,
    Tomorrow,
    Yesterday,
}

impl FindByName for Preset {
    open spec fn spec_name(self) -> Seq<char> {
        match self {
            Preset::Today => "today"@,
            Preset::Tomorrow => "tomorrow"@,
            Preset::Yesterday => "yesterday"@,
        }
    }

    open spec fn variants() -> Seq<Preset> {
        seq![Preset::Today, Preset::Tomorrow, Preset::Yesterday]
    }

    proof fn lemma_names_unique() {
        reveal_strlit("today");
        reveal_strlit("tomorrow");
        reveal_strlit("yesterday");
        assert("today"@.len() == 5);
        assert("tomorrow"@.len() == 8);
        assert("yesterday"@.len() == 9);
    }

    proof fn lemma_variants_complete(v: Self) {
        match v {
            Preset::Today => assert(Self::variants()[0] == v),
            Preset::Tomorrow => assert(Self::variants()[1] == v),
            Preset::Yesterday => assert(Self::variants()[2] == v),
        }
    }

    fn possible_values() -> (r: Vec<Preset>) {
        let mut r: Vec<Preset> = Vec::new();
        r.push(Preset::Today);
        r.push(Preset::Tomorrow);
        r.push(Preset::Yesterday);
        proof {
            assert(r@ =~= Self::variants());
        }
        r
    }

    fn name(self) -> (r: &'static str) {
        match self {
            Preset::Today => "today",
            Preset::Tomorrow => "tomorrow",
            Preset::Yesterday => "yesterday",
        }
    }
}

impl Preset {
    /// The whole-day offset of this preset relative to today.
    pub open spec fn offset_days(self) -> int {
        match self {
            Preset::Today => 0,
            Preset::Tomorrow => 1,
            Preset::Yesterday => -1,
        }
    }

    /// The variant whose canonical name is `name`, if any.
    pub open spec fn spec_of_name(name: Seq<char>) -> Option<Preset> {
        if name == "today"@ {
            Some(Preset::Today)
        } else if name == "tomorrow"@ {
            Some(Preset::Tomorrow)
        } else if name == "yesterday"@ {
            Some(Preset::Yesterday)
        } else {
            None
        }
    }

    /// Resolves a preset name, failing with a wrapped `NotFound` when the
    /// name matches no variant.
    pub fn find_by_name(name: &str) -> (r: Result<Preset, PresetError>)
        ensures
            match Self::spec_of_name(name@) {
                Some(p) => r == Ok::<Preset, PresetError>(p),
                None => r matches Err(PresetError::WrongName(FindError::NotFound(n))) && n@
                    == name@,
            },
    {
        let r = find::find_by_name::<Preset>(name);
        proof {
            Self::lemma_find_matches_spec_of_name(r, name@);
        }
        match r {
            Ok(p) => Ok(p),
            Err(e) => Err(PresetError::WrongName(e)),
        }
    }

    /// Resolves an optional preset name; `None` passes through.
    pub fn find_by_name_opt(name: Option<&str>) -> (r: Result<Option<Preset>, PresetError>)
        ensures
            match name {
                None => r == Ok::<Option<Preset>, PresetError>(None),
                Some(n) => match Self::spec_of_name(n@) {
                    Some(p) => r == Ok::<Option<Preset>, PresetError>(Some(p)),
                    None => r matches Err(PresetError::WrongName(FindError::NotFound(m))) && m@
                        == n@,
                },
            },
    {
        match name {
            None => Ok(None),
            Some(n) => match Self::find_by_name(n) {
                Ok(p) => Ok(Some(p)),
                Err(e) => Err(e),
            },
        }
    }

    /// The canonical preset names, in declaration order.
    pub fn possible_names() -> (r: Vec<String>)
        ensures
            r.deep_view() =~= seq!["today"@, "tomorrow"@, "yesterday"@],
    {
        let names = find::possible_names::<Preset>();
        proof {
            assert(names.deep_view().len() == 3);
            assert(names.deep_view()[0] == "today"@);
            assert(names.deep_view()[1] == "tomorrow"@);
            assert(names.deep_view()[2] == "yesterday"@);
        }
        names
    }

    /// The generic lookup's outcome, restated over `spec_of_name`.
    proof fn lemma_find_matches_spec_of_name(r: Result<Preset, FindError>, name: Seq<char>)
        requires
            match r {
                Ok(v) => Self::variants().contains(v) && v.spec_name() == name,
                Err(e) => {
                    &&& e matches FindError::NotFound(n) && n@ == name
                    &&& forall|i: int|
                        0 <= i < Self::variants().len() ==> Self::variants()[i].spec_name()
                            != name
                },
            },
        ensures
            match r {
                Ok(v) => Self::spec_of_name(name) == Some(v),
                Err(e) => Self::spec_of_name(name) is None,
            },
    {
        Self::lemma_names_unique();
        match r {
            Ok(v) => {
                match v {
                    Preset::Today => assert(name == "today"@),
                    Preset::Tomorrow => {
                        assert(name == "tomorrow"@);
                        assert(Self::variants()[0].spec_name() != Self::variants()[1].spec_name());
                    },
                    Preset::Yesterday => {
                        assert(name == "yesterday"@);
                        assert(Self::variants()[0].spec_name() != Self::variants()[2].spec_name());
                        assert(Self::variants()[1].spec_name() != Self::variants()[2].spec_name());
                    },
                }
            },
            Err(_) => {
                assert(Self::variants()[0].spec_name() != name);
                assert(Self::variants()[1].spec_name() != name);
                assert(Self::variants()[2].spec_name() != name);
            },
        }
    }

    /// Resolves this preset against `provider`: today, one day later, or one
    /// day earlier, in the provider's own timezone.
    pub fn as_date<P: DateTimeProvider>(self, provider: &P) -> (r: Date)
        requires
            provider.wf(),
        ensures
            r.days as int == provider.spec_today_days() + self.offset_days(),
    {
        match self {
            Preset::Today => provider.today(),
            Preset::Tomorrow => provider.tomorrow(),
            Preset::Yesterday => provider.yesterday(),
        }
    }
}

} // verus!
