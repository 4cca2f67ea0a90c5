//! The grammar of decimal floating-point literals.
//!
//! `str::parse::<f64>` documents exactly which strings it accepts: an
//! optional sign, then either one of the special words `inf`, `infinity`,
//! `nan` (ASCII-case-insensitively) or a decimal number made of digits with
//! at most one decimal point and at least one digit, optionally followed by
//! an exponent `e`/`E`, an optional sign and one or more digits.  The
//! predicate [`is_f64_literal`] states that grammar over a character
//! sequence; the trusted wrappers promise that the numeric conversion
//! succeeds exactly on the strings this predicate accepts.

use vstd::prelude::*;

use crate::chars::eq_ignore_ascii_case;
use crate::chars::is_ascii_digit;

verus! {

/// Every character of `s` is an ASCII decimal digit.
pub open spec fn all_digits(s: Seq<char>) -> bool {
    forall|i: int| 0 <= i < s.len() ==> is_ascii_digit(#[trigger] s[i])
}

/// `s` and `t` have the same letters up to ASCII case.
pub open spec fn seq_eq_ignore_ascii_case(s: Seq<char>, t: Seq<char>) -> bool {
    s.len() == t.len() && forall|i: int|
        0 <= i < s.len() ==> eq_ignore_ascii_case(#[trigger] s[i], t[i])
}

/// One of the special floating-point words: `inf`, `infinity` or `nan`,
/// compared ASCII-case-insensitively.
pub open spec fn is_special_float_word(s: Seq<char>) -> bool {
    ||| seq_eq_ignore_ascii_case(s, seq!['i', 'n', 'f'])
    ||| seq_eq_ignore_ascii_case(s, seq!['i', 'n', 'f', 'i', 'n', 'i', 't', 'y'])
    ||| seq_eq_ignore_ascii_case(s, seq!['n', 'a', 'n'])
}

/// The digits-and-point part of a number: only digits and at most one
/// decimal point, with at least one digit.
pub open spec fn is_float_mantissa(s: Seq<char>) -> bool {
    ||| (s.len() > 0 && all_digits(s))
    ||| (exists|i: int|
        0 <= i < s.len() && s.len() >= 2 && #[trigger] s[i] == '.' && all_digits(s.take(i))
            && all_digits(s.skip(i + 1)))
}

/// An exponent part: `e` or `E`, an optional sign, one or more digits.
pub open spec fn is_float_exponent(s: Seq<char>) -> bool {
    s.len() >= 2 && (s[0] == 'e' || s[0] == 'E') && {
        let body = if s[1] == '+' || s[1] == '-' {
            s.skip(2)
        } else {
            s.skip(1)
        };
        body.len() > 0 && all_digits(body)
    }
}

/// A decimal number: a mantissa, optionally followed by an exponent.
pub open spec fn is_float_number(s: Seq<char>) -> bool {
    ||| is_float_mantissa(s)
    ||| (exists|i: int|
        0 < i < s.len() && is_float_mantissa(#[trigger] s.take(i)) && is_float_exponent(s.skip(i)))
}

/// `s` is accepted by the documented grammar of `str::parse::<f64>`.
pub open spec fn is_f64_literal(s: Seq<char>) -> bool {
    let body = if s.len() > 0 && (s[0] == '+' || s[0] == '-') {
        s.skip(1)
    } else {
        s
    };
    is_special_float_word(body) || is_float_number(body)
}

/// A nonempty run of digits is a floating-point literal; the empty sequence
/// is not one.
pub proof fn lemma_digits_are_f64_literal(s: Seq<char>)
    ensures
        s.len() > 0 && all_digits(s) ==> is_f64_literal(s),
        !is_f64_literal(Seq::<char>::empty()),
{
    if s.len() > 0 && all_digits(s) {
        assert(!(s[0] == '+' || s[0] == '-'));
        assert(is_float_mantissa(s));
    }
}

} // verus!
