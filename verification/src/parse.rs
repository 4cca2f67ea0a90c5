//! The parse plan: which unit a string's trailing token selects, and which
//! part of the string is handed to the numeric conversion.
//!
//! Each kind follows the same shape.  Empty input stands for zero in the
//! canonical unit, so its plan is the canonical unit with the mantissa
//! `"0"`.  Otherwise the trailing-token grammar is applied: if it finds a
//! token and the token is in the kind's table, the captured mantissa is
//! converted in that unit; if the token is unknown, or no token is found,
//! the whole string is treated as a bare number in the canonical unit.

use vstd::prelude::*;

use crate::chars::space_char;
use crate::scan::Kind;
use crate::scan::best_span;
use crate::scan::cand_start;
use crate::scan::find_span;
use crate::scan::lemma_run_start_bounds;
use crate::scan::mantissa_end;
use crate::scan::run_start_at;
use crate::units::MassUnit;
use crate::units::TemperatureUnit;
use crate::units::VolumeUnit;
use crate::units::mass_token_lookup;
use crate::units::mass_token_unit;
use crate::units::temperature_token_lookup;
use crate::units::temperature_token_unit;
use crate::units::volume_token_lookup;
use crate::units::volume_token_unit;
use vstd::string::StrSliceExecFns;
use vstd::string::StringExecFns;

verus! {

/// The temperature plan of a string: the selected unit and the character
/// sequence handed to the numeric conversion.
pub open spec fn temperature_plan(s: Seq<char>) -> (TemperatureUnit, Seq<char>) {
    if s.len() == 0 {
        (TemperatureUnit::Celsius, seq!['0'])
    } else {
        match best_span(Kind::Temperature, s) {
            Option::None => (TemperatureUnit::Celsius, s),
            Option::Some(k) => match temperature_token_unit(s.subrange(k, s.len() as int)) {
                Option::Some(u) => (u, s.subrange(cand_start(s, k), mantissa_end(s, k))),
                Option::None => (TemperatureUnit::Celsius, s),
            },
        }
    }
}

/// The volume plan of a string.
pub open spec fn volume_plan(s: Seq<char>) -> (VolumeUnit, Seq<char>) {
    if s.len() == 0 {
        (VolumeUnit::Litres, seq!['0'])
    } else {
        match best_span(Kind::Volume, s) {
            Option::None => (VolumeUnit::Litres, s),
            Option::Some(k) => match volume_token_unit(s.subrange(k, s.len() as int)) {
                Option::Some(u) => (u, s.subrange(cand_start(s, k), mantissa_end(s, k))),
                Option::None => (VolumeUnit::Litres, s),
            },
        }
    }
}

/// The mass plan of a string.
pub open spec fn mass_plan(s: Seq<char>) -> (MassUnit, Seq<char>) {
    if s.len() == 0 {
        (MassUnit::Grams, seq!['0'])
    } else {
        match best_span(Kind::Mass, s) {
            Option::None => (MassUnit::Grams, s),
            Option::Some(k) => match mass_token_unit(s.subrange(k, s.len() as int)) {
                Option::Some(u) => (u, s.subrange(cand_start(s, k), mantissa_end(s, k))),
                Option::None => (MassUnit::Grams, s),
            },
        }
    }
}

/// The mantissa of a found span, as an owned string.
fn mantissa_at(val: &str, k: usize) -> (r: String)
    requires
        (k as int) < val@.len(),
    ensures
        r@ == val@.subrange(cand_start(val@, k as int), mantissa_end(val@, k as int)),
{
    let me = if k >= 1 && space_char(val.get_char(k - 1)) {
        k - 1
    } else {
        k
    };
    assert(me as int == mantissa_end(val@, k as int));
    let cs = run_start_at(val, me);
    proof {
        lemma_run_start_bounds(val@, me as int);
    }
    String::from_str(val.substring_char(cs, me))
}

/// Parse plan of a temperature string, executably: the unit selected by the
/// trailing token, and the text to be read as the number.
pub fn temperature_dispatch(val: &str) -> (r: (TemperatureUnit, String))
    ensures
        r.0 == temperature_plan(val@).0,
        r.1@ == temperature_plan(val@).1,
{
    let n = val.unicode_len();
    if n == 0 {
        let z = String::from_str("0");
        proof {
            reveal_strlit("0");
            assert(z@ =~= seq!['0']);
        }
        return (TemperatureUnit::Celsius, z);
    }
    match find_span(Kind::Temperature, val) {
        Option::Some(k) => match temperature_token_lookup(val, k, n) {
            Option::Some(u) => (u, mantissa_at(val, k)),
            Option::None => (TemperatureUnit::Celsius, String::from_str(val)),
        },
        Option::None => (TemperatureUnit::Celsius, String::from_str(val)),
    }
}

/// Parse plan of a volume string, executably.
pub fn volume_dispatch(val: &str) -> (r: (VolumeUnit, String))
    ensures
        r.0 == volume_plan(val@).0,
        r.1@ == volume_plan(val@).1,
{
    let n = val.unicode_len();
    if n == 0 {
        let z = String::from_str("0");
        proof {
            reveal_strlit("0");
            assert(z@ =~= seq!['0']);
        }
        return (VolumeUnit::Litres, z);
    }
    match find_span(Kind::Volume, val) {
        Option::Some(k) => match volume_token_lookup(val, k, n) {
            Option::Some(u) => (u, mantissa_at(val, k)),
            Option::None => (VolumeUnit::Litres, String::from_str(val)),
        },
        Option::None => (VolumeUnit::Litres, String::from_str(val)),
    }
}

/// Parse plan of a mass string, executably.
pub fn mass_dispatch(val: &str) -> (r: (MassUnit, String))
    ensures
        r.0 == mass_plan(val@).0,
        r.1@ == mass_plan(val@).1,
{
    let n = val.unicode_len();
    if n == 0 {
        let z = String::from_str("0");
        proof {
            reveal_strlit("0");
            assert(z@ =~= seq!['0']);
        }
        return (MassUnit::Grams, z);
    }
    match find_span(Kind::Mass, val) {
        Option::Some(k) => match mass_token_lookup(val, k, n) {
            Option::Some(u) => (u, mantissa_at(val, k)),
            Option::None => (MassUnit::Grams, String::from_str(val)),
        },
        Option::None => (MassUnit::Grams, String::from_str(val)),
    }
}

} // verus!
