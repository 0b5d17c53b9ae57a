//! Parsing of a raw timestamp token: an optionally signed decimal integer.
//!
//! The boundary layer only guarantees that the token looks integer-like, so
//! the parser here still decides range: it accepts exactly the tokens of the
//! shape sign-then-digits whose value fits a signed 64-bit integer, and
//! rejects everything else instead of panicking.

use vstd::prelude::*;
use vstd::string::StrSliceExecFns;

verus! {

/// A decimal digit.
pub open spec fn spec_is_digit(c: char) -> bool {
    48 <= c as int <= 57
}

/// The numeric value of a decimal digit.
pub open spec fn digit_value(c: char) -> int {
    c as int - 48
}

/// Every character of `s` is a decimal digit.
pub open spec fn all_digits(s: Seq<char>) -> bool {
    forall|i: int| 0 <= i < s.len() ==> spec_is_digit(s[i])
}

/// The non-negative value of a digit string, most significant digit first.
pub open spec fn digits_value(s: Seq<char>) -> int
    decreases s.len(),
{
    if s.len() == 0 {
        0
    } else {
        digits_value(s.drop_last()) * 10 + digit_value(s.last())
    }
}

/// The digit part of a token: everything after a leading sign, if any.
pub open spec fn spec_body(s: Seq<char>) -> Seq<char> {
    if s.len() > 0 && (s[0] == '+' || s[0] == '-') {
        s.skip(1)
    } else {
        s
    }
}

/// `s` is an optionally signed, non-empty decimal integer token.
pub open spec fn is_int_token(s: Seq<char>) -> bool {
    spec_body(s).len() > 0 && all_digits(spec_body(s))
}

/// The mathematical value of an integer token.
pub open spec fn int_token_value(s: Seq<char>) -> int {
    if s.len() > 0 && s[0] == '-' {
        -digits_value(spec_body(s))
    } else {
        digits_value(spec_body(s))
    }
}

/// A digit string's value is non-negative.
proof fn lemma_digits_value_nonneg(s: Seq<char>)
    requires
        all_digits(s),
    ensures
        digits_value(s) >= 0,
    decreases s.len(),
{
    if s.len() > 0 {
        assert(all_digits(s.drop_last()));
        lemma_digits_value_nonneg(s.drop_last());
    }
}

/// Extending a digit string never shrinks its value.
proof fn lemma_digits_value_prefix(s: Seq<char>, k: int)
    requires
        all_digits(s),
        0 <= k <= s.len(),
    ensures
        digits_value(s) >= digits_value(s.take(k)),
    decreases s.len() - k,
{
    if k < s.len() {
        lemma_digits_value_prefix(s, k + 1);
        let p = s.take(k + 1);
        assert(all_digits(p));
        assert(p.drop_last() =~= s.take(k));
        lemma_digits_value_nonneg(p.drop_last());
        assert(digits_value(p) >= digits_value(p.drop_last()));
    } else {
        assert(s.take(k) =~= s);
    }
}

/// Parses an optionally signed decimal token into a signed 64-bit integer.
///
/// Returns `Some` exactly when the token is well-shaped and its value fits;
/// a malformed token or one beyond the 64-bit range yields `None`, never a
/// panic.
pub fn parse_i64(s: &str) -> (r: Option<i64>)
    ensures
        r is Some <==> is_int_token(s@) && i64::MIN <= int_token_value(s@) <= i64::MAX,
        r matches Some(v) ==> v as int == int_token_value(s@),
{
    let len = s.unicode_len();
    if len == 0 {
        return None;
    }
    let first = s.get_char(0);
    let neg = first == '-';
    let start: usize = if first == '-' || first == '+' {
        1
    } else {
        0
    };
    if start == len {
        // a bare sign has an empty digit part
        proof {
            assert(spec_body(s@).len() == 0);
        }
        return None;
    }
    let ghost body = spec_body(s@);
    proof {
        assert(body =~= s@.subrange(start as int, len as int));
    }
    let mut acc: i128 = 0;
    let mut i: usize = start;
    while i < len
        invariant
            start <= i <= len,
            len == s@.len(),
            start < len,
            body == spec_body(s@),
            body =~= s@.subrange(start as int, len as int),
            all_digits(s@.subrange(start as int, i as int)),
            acc == digits_value(s@.subrange(start as int, i as int)),
            0 <= acc <= 0x8000_0000_0000_0000i128,
        decreases len - i,
    {
        let c = s.get_char(i);
        let cu = c as u32;
        if cu < 48 || cu > 57 {
            // a non-digit in the digit part: not a token at all
            proof {
                assert(body[i - start] == s@[i as int]);
                assert(!spec_is_digit(body[i - start]));
            }
            return None;
        }
        let d = cu - 48;
        acc = acc * 10 + d as i128;
        proof {
            let prev = s@.subrange(start as int, i as int);
            let cur = s@.subrange(start as int, i + 1);
            assert(cur.drop_last() =~= prev);
            assert(cur.last() == s@[i as int]);
        }
        if acc > 0x8000_0000_0000_0000i128 {
            // the digits seen already outgrow the 64-bit range, and more
            // digits can only grow the value further
            proof {
                if is_int_token(s@) {
                    lemma_digits_value_prefix(body, i + 1 - start);
                    assert(body.take(i + 1 - start) =~= s@.subrange(start as int, i + 1));
                }
            }
            return None;
        }
        i += 1;
    }
    proof {
        assert(s@.subrange(start as int, len as int) =~= body);
        assert(is_int_token(s@));
    }
    if neg {
        proof {
            assert(int_token_value(s@) == -acc);
        }
        Some((-acc) as i64)
    } else {
        if acc > 0x7fff_ffff_ffff_ffffi128 {
            // an unsigned token of exactly 2^63 overflows
            return None;
        }
        Some(acc as i64)
    }
}

} // verus!
