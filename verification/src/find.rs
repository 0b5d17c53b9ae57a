//! Lookup of an enumeration variant by its canonical name.
//!
//! Every closed enumeration of this crate (precisions, presets) exposes its
//! variants together with their canonical names through [`FindByName`]; the
//! free functions here resolve an arbitrary string against that set, either
//! to the unique matching variant or to a structured [`FindError`].

use vstd::prelude::*;
use vstd::string::StrSliceExecFns;

verus! {

/// Failure of a lookup by name: the attempted name matched no variant, or
/// (reserved for matching rules that would allow partial matches) more than
/// one.  Either way the attempted name is carried along for error rendering.
#[derive(Debug, Clone, PartialEq)]
pub enum FindError {
    NotFound(String),
    Ambiguous(String),
}

/// A closed enumeration whose variants carry unique canonical names.
pub trait FindByName: Sized + Copy {
    /// The canonical name of this variant.
    spec fn spec_name(self) -> Seq<char>;

    /// All variants, in their declaration order.
    spec fn variants() -> Seq<Self>;

    /// The canonical names are pairwise distinct, so a name determines the
    /// variant.
    proof fn lemma_names_unique()
        ensures
            forall|i: int, j: int|
                0 <= i < j < Self::variants().len() ==> Self::variants()[i].spec_name()
                    != Self::variants()[j].spec_name(),
    ;

    /// Every variant stands in `variants()`.
    proof fn lemma_variants_complete(v: Self)
        ensures
            Self::variants().contains(v),
    ;

    fn possible_values() -> (r: Vec<Self>)
        ensures
            r@ == Self::variants(),
    ;

    fn name(self) -> (r: &'static str)
        ensures
            r@ == self.spec_name(),
    ;
}

/// Character-for-character equality of two string slices.
pub fn str_eq(a: &str, b: &str) -> (r: bool)
    ensures
        r == (a@ == b@),
{
    let alen = a.unicode_len();
    let blen = b.unicode_len();
    if alen != blen {
        return false;
    }
    let mut i: usize = 0;
    while i < alen
        invariant
            i <= alen,
            alen == a@.len(),
            alen == b@.len(),
            forall|j: int| 0 <= j < i ==> a@[j] == b@[j],
        decreases alen - i,
    {
        if a.get_char(i) != b.get_char(i) {
            return false;
        }
        i += 1;
    }
    proof {
        assert(a@ =~= b@);
    }
    true
}

/// Resolves `name` against the canonical names of `T`'s variants.
///
/// Succeeds exactly when some variant's canonical name equals `name`
/// character for character; otherwise fails with `NotFound` carrying the
/// attempted name.
pub fn find_by_name<T: FindByName>(name: &str) -> (r: Result<T, FindError>)
    ensures
        match r {
            Ok(v) => T::variants().contains(v) && v.spec_name() == name@,
            Err(e) => {
                &&& e matches FindError::NotFound(n) && n@ == name@
                &&& forall|i: int|
                    0 <= i < T::variants().len() ==> T::variants()[i].spec_name() != name@
            },
        },
{
    let vals = T::possible_values();
    let mut i: usize = 0;
    while i < vals.len()
        invariant
            i <= vals.len(),
            vals@ == T::variants(),
            forall|j: int| 0 <= j < i ==> T::variants()[j].spec_name() != name@,
        decreases vals.len() - i,
    {
        let v = vals[i];
        if str_eq(v.name(), name) {
            return Ok(v);
        }
        i += 1;
    }
    Err(FindError::NotFound(name.to_owned()))
}

/// Resolves an optional name: `None` passes through as `Ok(None)`, a present
/// name is resolved as by [`find_by_name`].
pub fn find_by_name_opt<T: FindByName>(name: Option<&str>) -> (r: Result<Option<T>, FindError>)
    ensures
        match name {
            None => r matches Ok(o) && o is None,
            Some(n) => match r {
                Ok(o) => {
                    &&& o matches Some(v)
                    &&& T::variants().contains(v)
                    &&& v.spec_name() == n@
                },
                Err(e) => {
                    &&& e matches FindError::NotFound(m) && m@ == n@
                    &&& forall|i: int|
                        0 <= i < T::variants().len() ==> T::variants()[i].spec_name() != n@
                },
            },
        },
{
    match name {
        None => Ok(None),
        Some(n) => match find_by_name::<T>(n) {
            Ok(v) => Ok(Some(v)),
            Err(e) => Err(e),
        },
    }
}

/// A name determines the variant: two variants with the same canonical name
/// are one and the same.  Together with the contract of [`find_by_name`] this
/// says that `find_by_name` and `find_by_name_opt` agree on every name on
/// which both succeed.
pub proof fn lemma_name_determines_variant<T: FindByName>(v1: T, v2: T)
    requires
        T::variants().contains(v1),
        T::variants().contains(v2),
        v1.spec_name() == v2.spec_name(),
    ensures
        v1 == v2,
{
    T::lemma_names_unique();
    let i = choose|i: int| 0 <= i < T::variants().len() && T::variants()[i] == v1;
    let j = choose|j: int| 0 <= j < T::variants().len() && T::variants()[j] == v2;
    assert(T::variants()[i] == v1);
    assert(T::variants()[j] == v2);
}

/// The canonical names of all of `T`'s variants, in declaration order.
pub fn possible_names<T: FindByName>() -> (r: Vec<String>)
    ensures
        r@.len() == T::variants().len(),
        forall|i: int| 0 <= i < r@.len() ==> r@[i]@ == T::variants()[i].spec_name(),
{
    let vals = T::possible_values();
    let mut names: Vec<String> = Vec::new();
    let mut i: usize = 0;
    while i < vals.len()
        invariant
            i <= vals.len(),
            vals@ == T::variants(),
            names@.len() == i,
            forall|j: int| 0 <= j < i ==> names@[j]@ == T::variants()[j].spec_name(),
        decreases vals.len() - i,
    {
        names.push(vals[i].name().to_owned());
        i += 1;
    }
    names
}

/// The concatenation of `parts` with `sep` between consecutive parts.
pub open spec fn spec_join(parts: Seq<Seq<char>>, sep: Seq<char>) -> Seq<char>
    decreases parts.len(),
{
    if parts.len() == 0 {
        Seq::empty()
    } else if parts.len() == 1 {
        parts[0]
    } else {
        spec_join(parts.drop_last(), sep) + sep + parts.last()
    }
}

/// Joins `parts` with `sep` between consecutive parts.
pub fn join(parts: &Vec<String>, sep: &str) -> (r: String)
    ensures
        r@ == spec_join(parts.deep_view(), sep@),
{
    let mut out = String::new();
    let mut i: usize = 0;
    while i < parts.len()
        invariant
            i <= parts.len(),
            out@ == spec_join(parts.deep_view().take(i as int), sep@),
        decreases parts.len() - i,
    {
        if i > 0 {
            out.append(sep);
        }
        out.append(parts[i].as_str());
        proof {
            assert(parts.deep_view().take(i + 1).drop_last() =~= parts.deep_view().take(
                i as int,
            ));
            assert(parts.deep_view().take(i + 1).last() == parts.deep_view()[i as int]);
        }
        i += 1;
    }
    proof {
        assert(parts.deep_view().take(parts@.len() as int) =~= parts.deep_view());
    }
    out
}

/// Renders a lookup failure: the context prefix, the attempted name, and the
/// full list of valid names.
pub fn render_not_found(prefix: &str, name: &str, names: &Vec<String>) -> (r: String)
    ensures
        r@ == prefix@ + name@ + ". possible names: ["@ + spec_join(names.deep_view(), ", "@)
            + "]"@,
{
    let list = join(names, ", ");
    let mut out = prefix.to_owned();
    out.append(name);
    out.append(". possible names: [");
    out.append(list.as_str());
    out.append("]");
    out
}

} // verus!
