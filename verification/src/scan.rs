//! The trailing-unit-token grammar.
//!
//! Every parse looks for a trailing pattern at the very end of the input:
//! an optional greedy run of digits and decimal points (the mantissa),
//! then at most one white-space character, then a unit token whose shape
//! depends on the kind of quantity:
//!
//! * temperature: exactly one ASCII letter;
//! * volume: one to three ASCII letters optionally followed by one ASCII
//!   digit, or one of the two symbol units, the micro-drop `"\u{03bc}l"`
//!   and the dram sign `"\u{0292}"`, matched literally;
//! * mass: one to three characters, each an ASCII letter or the micro sign
//!   `'\u{03bc}'`.
//!
//! Of all positions where such a token can end the string, the match is the
//! one whose overall pattern (mantissa, space, token) starts earliest; ties
//! go to the longer token.  [`best_span`] picks that token start, and
//! [`find_span`] computes it executably.

use vstd::prelude::*;

use crate::chars::ascii_alpha;
use crate::chars::ascii_digit;
use crate::chars::is_ascii_alpha;
use crate::chars::is_ascii_digit;
use crate::chars::is_mantissa_char;
use crate::chars::is_space;
use crate::chars::mantissa_char;
use crate::chars::space_char;
use vstd::string::StrSliceExecFns;

verus! {

/// The kind of physical quantity a string is parsed into.
#[derive(Clone, Copy, Debug, PartialEq, Eq, Structural)]
pub enum Kind {
    Temperature,
    Volume,
    Mass,
}

/// Every character of `t` is an ASCII letter.
pub open spec fn all_ascii_alpha(t: Seq<char>) -> bool {
    forall|i: int| 0 <= i < t.len() ==> is_ascii_alpha(#[trigger] t[i])
}

/// A character a mass unit token may contain: an ASCII letter or the micro
/// sign.
pub open spec fn is_mass_token_char(c: char) -> bool {
    is_ascii_alpha(c) || c == '\u{03bc}'
}

/// One to three ASCII letters, optionally followed by exactly one ASCII
/// digit.
pub open spec fn ascii_unit_token(t: Seq<char>) -> bool {
    ||| (1 <= t.len() <= 3 && all_ascii_alpha(t))
    ||| (2 <= t.len() <= 4 && all_ascii_alpha(t.take(t.len() - 1)) && is_ascii_digit(
        t[t.len() - 1],
    ))
}

/// The shape of a temperature unit token.
pub open spec fn temperature_token_shape(t: Seq<char>) -> bool {
    t.len() == 1 && is_ascii_alpha(t[0])
}

/// The shape of a volume unit token: the ASCII shape, or one of the two
/// symbol units matched literally.
pub open spec fn volume_token_shape(t: Seq<char>) -> bool {
    ||| ascii_unit_token(t)
    ||| t == seq!['\u{03bc}', 'l']
    ||| t == seq!['\u{0292}']
}

/// The shape of a mass unit token.
pub open spec fn mass_token_shape(t: Seq<char>) -> bool {
    1 <= t.len() <= 3 && forall|i: int| 0 <= i < t.len() ==> is_mass_token_char(#[trigger] t[i])
}

/// The token shape of the given kind.
pub open spec fn token_shape(kind: Kind, t: Seq<char>) -> bool {
    match kind {
        Kind::Temperature => temperature_token_shape(t),
        Kind::Volume => volume_token_shape(t),
        Kind::Mass => mass_token_shape(t),
    }
}

/// The longest token the given kind admits.
pub open spec fn max_token_len(kind: Kind) -> int {
    match kind {
        Kind::Temperature => 1,
        Kind::Volume => 4,
        Kind::Mass => 3,
    }
}

/// A unit token of the given kind stands at `k` and reaches the end of `s`.
pub open spec fn span_valid(kind: Kind, s: Seq<char>, k: int) -> bool {
    0 <= k < s.len() && token_shape(kind, s.subrange(k, s.len() as int))
}

/// The start of the maximal run of mantissa characters that ends just
/// before position `p`.
pub open spec fn run_start(s: Seq<char>, p: int) -> int
    decreases p,
{
    if 0 < p <= s.len() && is_mantissa_char(s[p - 1]) {
        run_start(s, p - 1)
    } else {
        p
    }
}

/// Where the mantissa of a match whose token starts at `k` ends: just
/// before the single optional white-space separator, if one is there.
pub open spec fn mantissa_end(s: Seq<char>, k: int) -> int {
    if k >= 1 && is_space(s[k - 1]) {
        k - 1
    } else {
        k
    }
}

/// Where the whole trailing pattern of a token starting at `k` begins.
pub open spec fn cand_start(s: Seq<char>, k: int) -> int {
    run_start(s, mantissa_end(s, k))
}

/// The earliest position a token of the given kind can start at.
pub open spec fn window_lo(kind: Kind, s: Seq<char>) -> int {
    if s.len() - max_token_len(kind) < 0 {
        0
    } else {
        s.len() - max_token_len(kind)
    }
}

/// Among the valid token starts below `k`, the one whose pattern starts
/// earliest; on a tie the smaller start, that is the longer token, wins.
pub open spec fn best_span_upto(kind: Kind, s: Seq<char>, k: int) -> Option<int>
    decreases k,
{
    if k <= window_lo(kind, s) || k <= 0 {
        None
    } else {
        let prev = best_span_upto(kind, s, k - 1);
        if span_valid(kind, s, k - 1) {
            match prev {
                Option::None => Some(k - 1),
                Option::Some(kb) => if cand_start(s, k - 1) < cand_start(s, kb) {
                    Some(k - 1)
                } else {
                    prev
                },
            }
        } else {
            prev
        }
    }
}

/// The token start the trailing-match grammar picks, if the string ends in
/// a unit token of the given kind at all.
pub open spec fn best_span(kind: Kind, s: Seq<char>) -> Option<int> {
    best_span_upto(kind, s, s.len() as int)
}

/// The bounds of [`run_start`], and that the run it delimits holds only
/// mantissa characters.
pub proof fn lemma_run_start_bounds(s: Seq<char>, p: int)
    requires
        0 <= p <= s.len(),
    ensures
        0 <= run_start(s, p) <= p,
        forall|j: int| run_start(s, p) <= j < p ==> is_mantissa_char(#[trigger] s[j]),
    decreases p,
{
    if 0 < p && is_mantissa_char(s[p - 1]) {
        lemma_run_start_bounds(s, p - 1);
    }
}

/// The run cannot reach back across a character that is not a mantissa
/// character.
pub proof fn lemma_run_start_after(s: Seq<char>, p: int, j: int)
    requires
        0 <= j < p <= s.len(),
        !is_mantissa_char(s[j]),
    ensures
        run_start(s, p) > j,
    decreases p,
{
    if 0 < p <= s.len() && is_mantissa_char(s[p - 1]) {
        lemma_run_start_after(s, p - 1, j);
    }
}

/// A run of mantissa characters reaches all the way back to the start.
pub proof fn lemma_run_start_zero(s: Seq<char>, p: int)
    requires
        0 <= p <= s.len(),
        forall|j: int| 0 <= j < p ==> is_mantissa_char(#[trigger] s[j]),
    ensures
        run_start(s, p) == 0,
    decreases p,
{
    if 0 < p {
        lemma_run_start_zero(s, p - 1);
    }
}

/// Two sequences with equal characters below `p` have the same run start.
pub proof fn lemma_run_start_agree(s1: Seq<char>, s2: Seq<char>, p: int)
    requires
        0 <= p <= s1.len(),
        p <= s2.len(),
        forall|j: int| 0 <= j < p ==> s1[j] == s2[j],
    ensures
        run_start(s1, p) == run_start(s2, p),
    decreases p,
{
    if 0 < p && is_mantissa_char(s1[p - 1]) {
        lemma_run_start_agree(s1, s2, p - 1);
    }
}

/// A unit token never starts with a mantissa character, and contains no
/// white space; a token is never longer than [`max_token_len`].
pub proof fn lemma_span_chars(kind: Kind, s: Seq<char>, k: int)
    requires
        span_valid(kind, s, k),
    ensures
        !is_mantissa_char(s[k]),
        forall|i: int| k <= i < s.len() ==> !is_space(#[trigger] s[i]),
        s.len() - k <= max_token_len(kind),
{
    let n = s.len() as int;
    let t = s.subrange(k, n);
    assert(forall|i: int| k <= i < n ==> s[i] == t[i - k]);
    match kind {
        Kind::Temperature => {
            assert(s[k] == t[0]);
            assert forall|i: int| k <= i < n implies !is_space(#[trigger] s[i]) by {
                assert(i == k);
            }
        },
        Kind::Mass => {
            assert(s[k] == t[0]);
            assert(is_mass_token_char(t[0]));
            assert forall|i: int| k <= i < n implies !is_space(#[trigger] s[i]) by {
                assert(is_mass_token_char(t[i - k]));
            }
        },
        Kind::Volume => {
            if ascii_unit_token(t) {
                if 1 <= t.len() <= 3 && all_ascii_alpha(t) {
                    assert(is_ascii_alpha(t[0]));
                    assert forall|i: int| k <= i < n implies !is_space(#[trigger] s[i]) by {
                        assert(is_ascii_alpha(t[i - k]));
                    }
                } else {
                    assert(t.take(t.len() - 1)[0] == t[0]);
                    assert(is_ascii_alpha(t[0]));
                    assert forall|i: int| k <= i < n implies !is_space(#[trigger] s[i]) by {
                        if i - k < t.len() - 1 {
                            assert(t.take(t.len() - 1)[i - k] == t[i - k]);
                            assert(is_ascii_alpha(t[i - k]));
                        } else {
                            assert(is_ascii_digit(t[i - k]));
                        }
                    }
                }
            } else if t == seq!['\u{03bc}', 'l'] {
                assert(t[0] == '\u{03bc}' && t[1] == 'l');
                assert forall|i: int| k <= i < n implies !is_space(#[trigger] s[i]) by {
                    assert(i == k || i == k + 1);
                }
            } else {
                assert(t == seq!['\u{0292}']);
                assert(t[0] == '\u{0292}');
                assert forall|i: int| k <= i < n implies !is_space(#[trigger] s[i]) by {
                    assert(i == k);
                }
            }
        },
    }
}

/// Below a stretch without valid token starts the best span is still
/// undecided.
pub proof fn lemma_best_none_below(kind: Kind, s: Seq<char>, k: int)
    requires
        forall|j: int| window_lo(kind, s) <= j < k ==> !span_valid(kind, s, j),
    ensures
        best_span_upto(kind, s, k) is None,
    decreases k,
{
    if k > window_lo(kind, s) && k > 0 {
        lemma_best_none_below(kind, s, k - 1);
    }
}

/// A valid token start whose pattern begins at the very front of the
/// string beats every later candidate, and nothing below it is valid, so
/// the scan keeps it.
pub proof fn lemma_best_pins(kind: Kind, s: Seq<char>, k0: int, k: int)
    requires
        window_lo(kind, s) <= k0 < s.len(),
        span_valid(kind, s, k0),
        cand_start(s, k0) == 0,
        forall|j: int| window_lo(kind, s) <= j < k0 ==> !span_valid(kind, s, j),
        forall|j: int|
            k0 < j < k ==> !(#[trigger] span_valid(kind, s, j) && cand_start(s, j) == 0),
        k0 < k <= s.len(),
    ensures
        best_span_upto(kind, s, k) == Some(k0),
    decreases k,
{
    if k == k0 + 1 {
        lemma_best_none_below(kind, s, k0);
    } else {
        lemma_best_pins(kind, s, k0, k - 1);
        if span_valid(kind, s, k - 1) {
            lemma_run_start_bounds(s, mantissa_end(s, k - 1));
            assert(cand_start(s, k - 1) > 0);
        }
    }
}

/// A string that is a run of mantissa characters, at most one white-space
/// separator, and a unit token is matched at that token, with the whole
/// pattern starting at the front.
pub proof fn lemma_clean_suffix_best(kind: Kind, s: Seq<char>, k0: int)
    requires
        0 <= k0 < s.len(),
        span_valid(kind, s, k0),
        forall|j: int|
            0 <= j < k0 ==> is_mantissa_char(#[trigger] s[j]) || (j == k0 - 1 && is_space(s[j])),
    ensures
        best_span(kind, s) == Some(k0),
        cand_start(s, k0) == 0,
{
    let n = s.len() as int;
    lemma_span_chars(kind, s, k0);
    assert(window_lo(kind, s) <= k0);
    let me = mantissa_end(s, k0);
    assert(forall|j: int| 0 <= j < me ==> is_mantissa_char(#[trigger] s[j]));
    lemma_run_start_zero(s, me);
    assert(cand_start(s, k0) == 0);
    assert forall|j: int| window_lo(kind, s) <= j < k0 implies !span_valid(kind, s, j) by {
        if span_valid(kind, s, j) {
            lemma_span_chars(kind, s, j);
        }
    }
    assert forall|j: int|
        k0 < j < n implies !(#[trigger] span_valid(kind, s, j) && cand_start(s, j) == 0) by {
        if span_valid(kind, s, j) {
            assert(!is_space(s[j - 1]));
            assert(mantissa_end(s, j) == j);
            lemma_run_start_after(s, j, k0);
        }
    }
    lemma_best_pins(kind, s, k0, n);
}

/// [`ascii_unit_token`] on a one-character sequence, elementwise.
proof fn lemma_ascii_token_1(t: Seq<char>)
    requires
        t.len() == 1,
    ensures
        ascii_unit_token(t) <==> is_ascii_alpha(t[0]),
{
    if is_ascii_alpha(t[0]) {
        assert forall|i: int| 0 <= i < t.len() implies is_ascii_alpha(#[trigger] t[i]) by {
            assert(i == 0);
        }
    }
}

/// [`ascii_unit_token`] on a two-character sequence, elementwise.
proof fn lemma_ascii_token_2(t: Seq<char>)
    requires
        t.len() == 2,
    ensures
        ascii_unit_token(t) <==> (is_ascii_alpha(t[0]) && (is_ascii_alpha(t[1]) || is_ascii_digit(
            t[1],
        ))),
{
    assert(t.take(1)[0] == t[0]);
    if is_ascii_alpha(t[0]) && is_ascii_alpha(t[1]) {
        assert forall|i: int| 0 <= i < t.len() implies is_ascii_alpha(#[trigger] t[i]) by {
            assert(i == 0 || i == 1);
        }
    }
    if is_ascii_alpha(t[0]) && is_ascii_digit(t[1]) {
        assert forall|i: int| 0 <= i < t.take(1).len() implies is_ascii_alpha(
            #[trigger] t.take(1)[i],
        ) by {
            assert(i == 0);
        }
    }
    if ascii_unit_token(t) && all_ascii_alpha(t.take(t.len() - 1)) && is_ascii_digit(
        t[t.len() - 1],
    ) {
        assert(is_ascii_alpha(t.take(1)[0]));
    }
}

/// [`ascii_unit_token`] on a three-character sequence, elementwise.
proof fn lemma_ascii_token_3(t: Seq<char>)
    requires
        t.len() == 3,
    ensures
        ascii_unit_token(t) <==> (is_ascii_alpha(t[0]) && is_ascii_alpha(t[1]) && (is_ascii_alpha(
            t[2],
        ) || is_ascii_digit(t[2]))),
{
    assert(t.take(2)[0] == t[0] && t.take(2)[1] == t[1]);
    if is_ascii_alpha(t[0]) && is_ascii_alpha(t[1]) && is_ascii_alpha(t[2]) {
        assert forall|i: int| 0 <= i < t.len() implies is_ascii_alpha(#[trigger] t[i]) by {
            assert(i == 0 || i == 1 || i == 2);
        }
    }
    if is_ascii_alpha(t[0]) && is_ascii_alpha(t[1]) && is_ascii_digit(t[2]) {
        assert forall|i: int| 0 <= i < t.take(2).len() implies is_ascii_alpha(
            #[trigger] t.take(2)[i],
        ) by {
            assert(i == 0 || i == 1);
        }
    }
    if ascii_unit_token(t) && all_ascii_alpha(t.take(t.len() - 1)) && is_ascii_digit(
        t[t.len() - 1],
    ) {
        assert(is_ascii_alpha(t.take(2)[0]) && is_ascii_alpha(t.take(2)[1]));
    }
}

/// [`ascii_unit_token`] on a four-character sequence, elementwise.
proof fn lemma_ascii_token_4(t: Seq<char>)
    requires
        t.len() == 4,
    ensures
        ascii_unit_token(t) <==> (is_ascii_alpha(t[0]) && is_ascii_alpha(t[1]) && is_ascii_alpha(
            t[2],
        ) && is_ascii_digit(t[3])),
{
    assert(t.take(3)[0] == t[0] && t.take(3)[1] == t[1] && t.take(3)[2] == t[2]);
    if is_ascii_alpha(t[0]) && is_ascii_alpha(t[1]) && is_ascii_alpha(t[2]) && is_ascii_digit(
        t[3],
    ) {
        assert forall|i: int| 0 <= i < t.take(3).len() implies is_ascii_alpha(
            #[trigger] t.take(3)[i],
        ) by {
            assert(i == 0 || i == 1 || i == 2);
        }
    }
    if ascii_unit_token(t) {
        if 1 <= t.len() <= 3 && all_ascii_alpha(t) {
        } else {
            assert(is_ascii_alpha(t.take(3)[0]) && is_ascii_alpha(t.take(3)[1]) && is_ascii_alpha(
                t.take(3)[2],
            ));
        }
    }
}

/// Executable check for [`span_valid`].
pub fn span_valid_at(kind: Kind, val: &str, k: usize, n: usize) -> (r: bool)
    requires
        n == val@.len(),
        k < n,
    ensures
        r == span_valid(kind, val@, k as int),
{
    let len = n - k;
    let ghost t = val@.subrange(k as int, n as int);
    assert(t.len() == len);
    match kind {
        Kind::Temperature => {
            let r = len == 1 && ascii_alpha(val.get_char(k));
            assert(r == temperature_token_shape(t)) by {
                if len == 1 {
                    assert(t[0] == val@[k as int]);
                }
            }
            r
        },
        Kind::Volume => {
            if len > 4 {
                assert(!volume_token_shape(t));
                false
            } else {
                let c0 = val.get_char(k);
                assert(t[0] == c0);
                let ascii = if len == 1 {
                    proof {
                        lemma_ascii_token_1(t);
                    }
                    ascii_alpha(c0)
                } else if len == 2 {
                    let c1 = val.get_char(k + 1);
                    proof {
                        assert(t[1] == c1);
                        lemma_ascii_token_2(t);
                    }
                    ascii_alpha(c0) && (ascii_alpha(c1) || ascii_digit(c1))
                } else if len == 3 {
                    let c1 = val.get_char(k + 1);
                    let c2 = val.get_char(k + 2);
                    proof {
                        assert(t[1] == c1 && t[2] == c2);
                        lemma_ascii_token_3(t);
                    }
                    ascii_alpha(c0) && ascii_alpha(c1) && (ascii_alpha(c2) || ascii_digit(c2))
                } else {
                    let c1 = val.get_char(k + 1);
                    let c2 = val.get_char(k + 2);
                    let c3 = val.get_char(k + 3);
                    proof {
                        assert(t[1] == c1 && t[2] == c2 && t[3] == c3);
                        lemma_ascii_token_4(t);
                    }
                    ascii_alpha(c0) && ascii_alpha(c1) && ascii_alpha(c2) && ascii_digit(c3)
                };
                assert(ascii == ascii_unit_token(t));
                let special = if len == 1 {
                    c0 == '\u{0292}'
                } else if len == 2 {
                    c0 == '\u{03bc}' && val.get_char(k + 1) == 'l'
                } else {
                    false
                };
                proof {
                    if special {
                        if len == 1 {
                            assert(t =~= seq!['\u{0292}']);
                        } else {
                            assert(t[1] == val@[k + 1]);
                            assert(t =~= seq!['\u{03bc}', 'l']);
                        }
                    }
                    if t == seq!['\u{0292}'] {
                        assert(t.len() == 1 && t[0] == '\u{0292}');
                    }
                    if t == seq!['\u{03bc}', 'l'] {
                        assert(t.len() == 2 && t[0] == '\u{03bc}' && t[1] == 'l');
                    }
                }
                ascii || special
            }
        },
        Kind::Mass => {
            if len > 3 {
                assert(!mass_token_shape(t));
                false
            } else {
                let mut ok = true;
                let mut i: usize = k;
                while i < n
                    invariant
                        k <= i <= n,
                        n == val@.len(),
                        ok == forall|j: int| k <= j < i ==> is_mass_token_char(#[trigger] val@[j]),
                    decreases n - i,
                {
                    let c = val.get_char(i);
                    if !(ascii_alpha(c) || c == '\u{03bc}') {
                        ok = false;
                    }
                    i = i + 1;
                }
                proof {
                    if ok {
                        assert forall|i: int| 0 <= i < t.len() implies is_mass_token_char(
                            #[trigger] t[i],
                        ) by {
                            assert(t[i] == val@[k + i]);
                        }
                    } else {
                        let j = choose|j: int|
                            k <= j < n && !is_mass_token_char(#[trigger] val@[j]);
                        assert(t[j - k] == val@[j]);
                        assert(!mass_token_shape(t));
                    }
                }
                assert(ok == mass_token_shape(t));
                ok
            }
        },
    }
}

/// Executable [`run_start`].
pub fn run_start_at(val: &str, p: usize) -> (r: usize)
    requires
        p <= val@.len(),
    ensures
        r as int == run_start(val@, p as int),
        r <= p,
{
    let mut q = p;
    while q > 0 && mantissa_char(val.get_char(q - 1))
        invariant
            q <= p <= val@.len(),
            run_start(val@, p as int) == run_start(val@, q as int),
        decreases q,
    {
        q = q - 1;
    }
    q
}

/// Executable [`cand_start`].
pub fn cand_start_at(val: &str, k: usize) -> (r: usize)
    requires
        k <= val@.len(),
    ensures
        r as int == cand_start(val@, k as int),
        r <= k,
{
    let me = if k >= 1 && space_char(val.get_char(k - 1)) {
        k - 1
    } else {
        k
    };
    assert(me as int == mantissa_end(val@, k as int));
    run_start_at(val, me)
}

/// Executable [`best_span`]: the start of the unit token the trailing
/// grammar picks, if any.
pub fn find_span(kind: Kind, val: &str) -> (r: Option<usize>)
    ensures
        match r {
            Option::Some(k) => best_span(kind, val@) == Some(k as int) && (k as int)
                < val@.len(),
            Option::None => best_span(kind, val@) is None,
        },
{
    let n = val.unicode_len();
    let maxlen: usize = match kind {
        Kind::Temperature => 1,
        Kind::Volume => 4,
        Kind::Mass => 3,
    };
    let lo = if n > maxlen {
        n - maxlen
    } else {
        0
    };
    assert(lo as int == window_lo(kind, val@));
    let mut best: Option<usize> = None;
    let mut k = lo;
    while k < n
        invariant
            n == val@.len(),
            lo as int == window_lo(kind, val@),
            lo <= k <= n,
            match best {
                Option::Some(b) => best_span_upto(kind, val@, k as int) == Some(b as int) && lo
                    <= b < k,
                Option::None => best_span_upto(kind, val@, k as int) is None,
            },
        decreases n - k,
    {
        if span_valid_at(kind, val, k, n) {
            best = match best {
                Option::None => Some(k),
                Option::Some(b) => {
                    let cs_new = cand_start_at(val, k);
                    let cs_b = cand_start_at(val, b);
                    if cs_new < cs_b {
                        Some(k)
                    } else {
                        Some(b)
                    }
                },
            };
        }
        k = k + 1;
    }
    best
}

} // verus!
