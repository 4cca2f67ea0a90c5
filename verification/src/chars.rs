//! Character classes used by the trailing-unit-token grammar.

use vstd::prelude::*;

verus! {

/// An ASCII decimal digit.
pub open spec fn is_ascii_digit(c: char) -> bool {
    '0' <= c && c <= '9'
}

/// An ASCII letter.
pub open spec fn is_ascii_alpha(c: char) -> bool {
    ('a' <= c && c <= 'z') || ('A' <= c && c <= 'Z')
}

/// A character the numeric-mantissa run may contain: an ASCII digit or the
/// decimal point.  The run is matched greedily and may hold several points;
/// whether the run is a well-formed number is decided later, by the
/// floating-point grammar.
pub open spec fn is_mantissa_char(c: char) -> bool {
    is_ascii_digit(c) || c == '.'
}

/// A white-space character, as the single optional separator between the
/// mantissa and the unit token accepts it: the Unicode `White_Space` set.
pub open spec fn is_space(c: char) -> bool {
    ||| ('\u{0009}' <= c && c <= '\u{000d}')
    ||| c == ' '
    ||| c == '\u{0085}'
    ||| c == '\u{00a0}'
    ||| c == '\u{1680}'
    ||| ('\u{2000}' <= c && c <= '\u{200a}')
    ||| c == '\u{2028}'
    ||| c == '\u{2029}'
    ||| c == '\u{202f}'
    ||| c == '\u{205f}'
    ||| c == '\u{3000}'
}

/// The two characters are the same ASCII letter up to case, or the very same
/// character.  Within `'a'..='z'` and `'A'..='Z'` the low five bits identify
/// the letter, so equal remainders modulo 32 mean equal letters.
pub open spec fn eq_ignore_ascii_case(a: char, b: char) -> bool {
    ||| a == b
    ||| (is_ascii_alpha(a) && is_ascii_alpha(b) && (a as u32) % 32 == (b as u32) % 32)
}

/// Executable check for [`is_ascii_digit`].
pub fn ascii_digit(c: char) -> (r: bool)
    ensures
        r == is_ascii_digit(c),
{
    '0' <= c && c <= '9'
}

/// Executable check for [`is_ascii_alpha`].
pub fn ascii_alpha(c: char) -> (r: bool)
    ensures
        r == is_ascii_alpha(c),
{
    ('a' <= c && c <= 'z') || ('A' <= c && c <= 'Z')
}

/// Executable check for [`is_mantissa_char`].
pub fn mantissa_char(c: char) -> (r: bool)
    ensures
        r == is_mantissa_char(c),
{
    ascii_digit(c) || c == '.'
}

/// Executable check for [`is_space`].
pub fn space_char(c: char) -> (r: bool)
    ensures
        r == is_space(c),
{
    ('\u{0009}' <= c && c <= '\u{000d}') || c == ' ' || c == '\u{0085}' || c == '\u{00a0}'
        || c == '\u{1680}' || ('\u{2000}' <= c && c <= '\u{200a}') || c == '\u{2028}' || c
        == '\u{2029}' || c == '\u{202f}' || c == '\u{205f}' || c == '\u{3000}'
}

/// Executable check for [`eq_ignore_ascii_case`].
pub fn char_eq_ignore_ascii_case(a: char, b: char) -> (r: bool)
    ensures
        r == eq_ignore_ascii_case(a, b),
{
    a == b || (ascii_alpha(a) && ascii_alpha(b) && (a as u32) % 32 == (b as u32) % 32)
}

} // verus!
