//! The laws of the measurement parser, stated and proved over the parse
//! plans.
//!
//! Each public proof function here states one behavioural law: the
//! empty-input rule, the round trip of every recognized unit token with
//! and without a separating space, case-insensitivity of temperature and
//! volume tokens, case-sensitivity of the mass table, and the bare-number
//! fallback to the canonical unit.

use vstd::prelude::*;

use crate::chars::eq_ignore_ascii_case;
use crate::chars::is_ascii_alpha;
use crate::chars::is_ascii_digit;
use crate::chars::is_mantissa_char;
use crate::chars::is_space;
use crate::numeric::all_digits;
use crate::numeric::is_f64_literal;
use crate::numeric::is_float_exponent;
use crate::numeric::is_special_float_word;
use crate::numeric::lemma_digits_are_f64_literal;
use crate::parse::mass_plan;
use crate::parse::temperature_plan;
use crate::parse::volume_plan;
use crate::scan::Kind;
use crate::scan::ascii_unit_token;
use crate::scan::best_span;
use crate::scan::best_span_upto;
use crate::scan::cand_start;
use crate::scan::is_mass_token_char;
use crate::scan::lemma_best_none_below;
use crate::scan::lemma_clean_suffix_best;
use crate::scan::lemma_run_start_agree;
use crate::scan::lemma_run_start_bounds;
use crate::scan::lemma_span_chars;
use crate::scan::mantissa_end;
use crate::scan::mass_token_shape;
use crate::scan::span_valid;
use crate::scan::temperature_token_shape;
use crate::scan::token_shape;
use crate::scan::volume_token_shape;
use crate::units::MassUnit;
use crate::units::TemperatureUnit;
use crate::units::VolumeUnit;
use crate::units::mass_token_unit;
use crate::units::temperature_token_unit;
use crate::units::volume_token_unit;

verus! {

/// A recognized temperature token is a single ASCII letter.
proof fn lemma_temperature_token_alpha(c: char)
    requires
        temperature_token_unit(seq![c]) is Some,
    ensures
        is_ascii_alpha(c),
        temperature_token_shape(seq![c]),
{
    assert(seq![c][0] == c);
}

/// A token the volume table recognizes has a valid volume token shape.
proof fn lemma_volume_token_is_shaped(t: Seq<char>)
    requires
        volume_token_unit(t) is Some,
    ensures
        volume_token_shape(t),
{
    if t.len() == 2 && t[0] == '\u{03bc}' && t[1] == 'l' {
        assert(t =~= seq!['\u{03bc}', 'l']);
    } else if t.len() == 1 && t[0] == '\u{0292}' {
        assert(t =~= seq!['\u{0292}']);
    } else if t.len() <= 3 && (t.len() == 0 || is_ascii_alpha(t[t.len() - 1])) {
        assert forall|i: int| 0 <= i < t.len() implies is_ascii_alpha(#[trigger] t[i]) by {
            assert(i == 0 || i == 1 || i == 2);
        }
        assert(ascii_unit_token(t));
    } else {
        assert(is_ascii_digit(t[t.len() - 1]));
        assert forall|i: int| 0 <= i < t.take(t.len() - 1).len() implies is_ascii_alpha(
            #[trigger] t.take(t.len() - 1)[i],
        ) by {
            assert(t.take(t.len() - 1)[i] == t[i]);
            assert(i == 0 || i == 1);
        }
        assert(ascii_unit_token(t));
    }
}

/// A token the mass table recognizes has a valid mass token shape.
proof fn lemma_mass_token_is_shaped(t: Seq<char>)
    requires
        mass_token_unit(t) is Some,
    ensures
        mass_token_shape(t),
{
    assert forall|i: int| 0 <= i < t.len() implies is_mass_token_char(#[trigger] t[i]) by {
        assert(i == 0 || i == 1 || i == 2);
    }
}

/// A string made of a mantissa run, an optional single space and a unit
/// token is split exactly there: the token is found, the whole pattern
/// starts at the front, and the captured mantissa is the run.
proof fn lemma_suffix_parts(kind: Kind, m: Seq<char>, tok: Seq<char>)
    requires
        forall|j: int| 0 <= j < m.len() ==> is_mantissa_char(#[trigger] m[j]),
        token_shape(kind, tok),
    ensures
        best_span(kind, m + tok) == Some(m.len() as int),
        mantissa_end(m + tok, m.len() as int) == m.len() as int,
        cand_start(m + tok, m.len() as int) == 0,
        (m + tok).subrange(m.len() as int, (m + tok).len() as int) == tok,
        (m + tok).subrange(0, m.len() as int) == m,
        best_span(kind, m + seq![' '] + tok) == Some(m.len() + 1 as int),
        mantissa_end(m + seq![' '] + tok, m.len() + 1 as int) == m.len() as int,
        cand_start(m + seq![' '] + tok, m.len() + 1 as int) == 0,
        (m + seq![' '] + tok).subrange(m.len() + 1 as int, (m + seq![' '] + tok).len() as int)
            == tok,
        (m + seq![' '] + tok).subrange(0, m.len() as int) == m,
{
    assert(tok.len() >= 1) by {
        match kind {
            Kind::Temperature => {},
            Kind::Volume => {},
            Kind::Mass => {},
        }
    }
    let s1 = m + tok;
    let n1 = s1.len() as int;
    let k1 = m.len() as int;
    assert(s1.subrange(k1, n1) =~= tok);
    assert(span_valid(kind, s1, k1));
    assert forall|j: int|
        0 <= j < k1 implies is_mantissa_char(#[trigger] s1[j]) || (j == k1 - 1 && is_space(
        s1[j],
    )) by {
        assert(s1[j] == m[j]);
    }
    lemma_clean_suffix_best(kind, s1, k1);
    if k1 >= 1 {
        assert(is_mantissa_char(s1[k1 - 1]));
        assert(!is_space(s1[k1 - 1]));
    }
    assert(mantissa_end(s1, k1) == k1);
    assert(s1.subrange(0, k1) =~= m);

    let s2 = m + seq![' '] + tok;
    let n2 = s2.len() as int;
    let k2 = m.len() + 1 as int;
    assert(s2.subrange(k2, n2) =~= tok);
    assert(span_valid(kind, s2, k2));
    assert forall|j: int|
        0 <= j < k2 implies is_mantissa_char(#[trigger] s2[j]) || (j == k2 - 1 && is_space(
        s2[j],
    )) by {
        if j < m.len() {
            assert(s2[j] == m[j]);
        } else {
            assert(s2[j] == ' ');
        }
    }
    lemma_clean_suffix_best(kind, s2, k2);
    assert(s2[k2 - 1] == ' ');
    assert(is_space(' '));
    assert(mantissa_end(s2, k2) == k2 - 1);
    assert(s2.subrange(0, k2 - 1) =~= m);
}

/// Parsing the empty string yields exactly zero in each kind's canonical
/// unit: the plan is the canonical unit with the mantissa `"0"`, which is
/// a well-formed literal, so construction succeeds.
pub proof fn empty_input_is_zero_in_default_unit()
    ensures
        temperature_plan(Seq::<char>::empty()) == (TemperatureUnit::Celsius, seq!['0']),
        volume_plan(Seq::<char>::empty()) == (VolumeUnit::Litres, seq!['0']),
        mass_plan(Seq::<char>::empty()) == (MassUnit::Grams, seq!['0']),
        is_f64_literal(seq!['0']),
{
    let z = seq!['0'];
    assert forall|i: int| 0 <= i < z.len() implies is_ascii_digit(#[trigger] z[i]) by {
        assert(i == 0);
    }
    lemma_digits_are_f64_literal(z);
}

/// Round-trip law for temperature: for every mantissa run and every
/// recognized temperature token, `"<mantissa><token>"` and
/// `"<mantissa> <token>"` select the same unit and capture the same
/// mantissa.
pub proof fn temperature_token_round_trip(m: Seq<char>, c: char, u: TemperatureUnit)
    requires
        forall|j: int| 0 <= j < m.len() ==> is_mantissa_char(#[trigger] m[j]),
        temperature_token_unit(seq![c]) == Some(u),
    ensures
        temperature_plan(m + seq![c]) == (u, m),
        temperature_plan(m + seq![' '] + seq![c]) == (u, m),
{
    lemma_temperature_token_alpha(c);
    lemma_suffix_parts(Kind::Temperature, m, seq![c]);
}

/// Round-trip law for volume: for every mantissa run and every recognized
/// volume token, `"<mantissa><token>"` and `"<mantissa> <token>"` select
/// the same unit and capture the same mantissa.
pub proof fn volume_token_round_trip(m: Seq<char>, tok: Seq<char>, u: VolumeUnit)
    requires
        forall|j: int| 0 <= j < m.len() ==> is_mantissa_char(#[trigger] m[j]),
        volume_token_unit(tok) == Some(u),
    ensures
        volume_plan(m + tok) == (u, m),
        volume_plan(m + seq![' '] + tok) == (u, m),
{
    lemma_volume_token_is_shaped(tok);
    lemma_suffix_parts(Kind::Volume, m, tok);
}

/// Round-trip law for mass: for every mantissa run and every recognized
/// mass token, `"<mantissa><token>"` and `"<mantissa> <token>"` select the
/// same unit and capture the same mantissa.
pub proof fn mass_token_round_trip(m: Seq<char>, tok: Seq<char>, u: MassUnit)
    requires
        forall|j: int| 0 <= j < m.len() ==> is_mantissa_char(#[trigger] m[j]),
        mass_token_unit(tok) == Some(u),
    ensures
        mass_plan(m + tok) == (u, m),
        mass_plan(m + seq![' '] + tok) == (u, m),
{
    lemma_mass_token_is_shaped(tok);
    lemma_suffix_parts(Kind::Mass, m, tok);
}

/// Case-insensitivity of temperature tokens: two inputs that differ only
/// in the case of a recognized trailing letter parse identically, whatever
/// stands before the letter.
pub proof fn temperature_case_insensitive(p: Seq<char>, c1: char, c2: char)
    requires
        eq_ignore_ascii_case(c1, c2),
        temperature_token_unit(seq![c1]) is Some,
    ensures
        temperature_plan(p.push(c1)) == temperature_plan(p.push(c2)),
{
    let s1 = p.push(c1);
    let s2 = p.push(c2);
    let n = s1.len() as int;
    lemma_temperature_token_alpha(c1);
    assert(is_ascii_alpha(c2));
    assert(s1.subrange(n - 1, n) =~= seq![c1]);
    assert(s2.subrange(n - 1, n) =~= seq![c2]);
    assert(span_valid(Kind::Temperature, s1, n - 1));
    assert(span_valid(Kind::Temperature, s2, n - 1));
    assert(best_span_upto(Kind::Temperature, s1, n - 1) is None);
    assert(best_span_upto(Kind::Temperature, s2, n - 1) is None);
    assert(best_span(Kind::Temperature, s1) == Some(n - 1));
    assert(best_span(Kind::Temperature, s2) == Some(n - 1));
    assert(temperature_token_unit(seq![c2]) == temperature_token_unit(seq![c1]));
    assert(forall|j: int| 0 <= j < n - 1 ==> s1[j] == s2[j]);
    assert(mantissa_end(s1, n - 1) == mantissa_end(s2, n - 1));
    lemma_run_start_bounds(s1, mantissa_end(s1, n - 1));
    lemma_run_start_agree(s1, s2, mantissa_end(s1, n - 1));
    assert(s1.subrange(cand_start(s1, n - 1), mantissa_end(s1, n - 1)) =~= s2.subrange(
        cand_start(s2, n - 1),
        mantissa_end(s2, n - 1),
    ));
}

/// Case-insensitivity of letter volume tokens: after a mantissa run, two
/// case-variants of a recognized letter token parse identically.  The two
/// symbol units are matched literally and stand outside this law.
pub proof fn volume_case_insensitive(m: Seq<char>, t1: Seq<char>, t2: Seq<char>, u: VolumeUnit)
    requires
        forall|j: int| 0 <= j < m.len() ==> is_mantissa_char(#[trigger] m[j]),
        t1.len() == t2.len(),
        forall|i: int| 0 <= i < t1.len() ==> eq_ignore_ascii_case(#[trigger] t1[i], t2[i]),
        ascii_unit_token(t1),
        volume_token_unit(t1) == Some(u),
    ensures
        volume_plan(m + t1) == (u, m),
        volume_plan(m + t2) == (u, m),
{
    assert(volume_token_unit(t2) == Some(u));
    volume_token_round_trip(m, t1, u);
    volume_token_round_trip(m, t2, u);
}

/// A bare number, a string of digits and decimal points only, parses in
/// the canonical default unit of each kind, whole.
pub proof fn bare_number_uses_default_unit(m: Seq<char>)
    requires
        m.len() > 0,
        forall|j: int| 0 <= j < m.len() ==> is_mantissa_char(#[trigger] m[j]),
    ensures
        temperature_plan(m) == (TemperatureUnit::Celsius, m),
        volume_plan(m) == (VolumeUnit::Litres, m),
        mass_plan(m) == (MassUnit::Grams, m),
{
    assert forall|j: int| 0 <= j < m.len() implies !span_valid(Kind::Temperature, m, j) by {
        if span_valid(Kind::Temperature, m, j) {
            lemma_span_chars(Kind::Temperature, m, j);
        }
    }
    assert forall|j: int| 0 <= j < m.len() implies !span_valid(Kind::Volume, m, j) by {
        if span_valid(Kind::Volume, m, j) {
            lemma_span_chars(Kind::Volume, m, j);
        }
    }
    assert forall|j: int| 0 <= j < m.len() implies !span_valid(Kind::Mass, m, j) by {
        if span_valid(Kind::Mass, m, j) {
            lemma_span_chars(Kind::Mass, m, j);
        }
    }
    lemma_best_none_below(Kind::Temperature, m, m.len() as int);
    lemma_best_none_below(Kind::Volume, m, m.len() as int);
    lemma_best_none_below(Kind::Mass, m, m.len() as int);
}

/// The mass table is case-sensitive: `"123T"` selects metric tons, while
/// `"123t"`, whose token is not in the table, falls back to the whole
/// string as a bare gram count, which is no floating-point literal, so
/// construction fails rather than colliding with the gram fallback.
pub proof fn mass_ton_token_is_case_sensitive()
    ensures
        mass_plan(seq!['1', '2', '3', 'T']) == (MassUnit::MetricTons, seq!['1', '2', '3']),
        mass_plan(seq!['1', '2', '3', 't']) == (MassUnit::Grams, seq!['1', '2', '3', 't']),
        !is_f64_literal(seq!['1', '2', '3', 't']),
{
    let m = seq!['1', '2', '3'];
    assert forall|j: int| 0 <= j < m.len() implies is_mantissa_char(#[trigger] m[j]) by {
        assert(j == 0 || j == 1 || j == 2);
    }
    assert(mass_token_unit(seq!['T']) == Some(MassUnit::MetricTons)) by {
        assert(seq!['T'][0] == 'T');
    }
    mass_token_round_trip(m, seq!['T'], MassUnit::MetricTons);
    assert(m + seq!['T'] =~= seq!['1', '2', '3', 'T']);

    let s = seq!['1', '2', '3', 't'];
    let n = s.len() as int;
    assert(s.subrange(3, 4) =~= seq!['t']);
    assert(span_valid(Kind::Mass, s, 3));
    assert forall|j: int|
        0 <= j < 3 implies is_mantissa_char(#[trigger] s[j]) || (j == 2 && is_space(s[j])) by {
        assert(j == 0 || j == 1 || j == 2);
    }
    lemma_clean_suffix_best(Kind::Mass, s, 3);
    assert(mass_token_unit(s.subrange(3, n)) is None);
    assert(mass_plan(s) == (MassUnit::Grams, s));

    assert(!(s[0] == '+' || s[0] == '-'));
    assert(!is_special_float_word(s));
    assert(!is_ascii_digit(s[3]));
    assert(forall|i: int| 0 <= i < s.len() ==> #[trigger] s[i] != '.') by {
        assert(s[0] == '1' && s[1] == '2' && s[2] == '3' && s[3] == 't');
    }
    assert forall|i: int| 0 < i < s.len() implies !is_float_exponent(#[trigger] s.skip(i)) by {
        assert(s.skip(i)[0] == s[i]);
        assert(i == 1 || i == 2 || i == 3);
    }
    assert(!is_f64_literal(s));
}

} // verus!
