//! The units of each quantity kind and the token tables that map a
//! trailing unit token to its unit.
//!
//! Temperature and volume tokens are matched ASCII-case-insensitively; the
//! two symbol units of volume and every mass token are matched exactly, so
//! that the single-letter mass tokens `T` (metric tons) and `g` (grams)
//! stay distinct.

use vstd::prelude::*;

use crate::chars::char_eq_ignore_ascii_case;
use crate::chars::eq_ignore_ascii_case;
use vstd::string::StrSliceExecFns;

verus! {

/// A unit of temperature; Celsius is the canonical unit.
#[derive(Clone, Copy, Debug, PartialEq, Eq, Structural)]
pub enum TemperatureUnit {
    Fahrenheit,
    Celsius,
    Kelvin,
    Rankine,
}

/// A unit of volume; litres are the canonical unit.
#[derive(Clone, Copy, Debug, PartialEq, Eq, Structural)]
pub enum VolumeUnit {
    CubicCentimeters,
    CubicFeet,
    CubicYards,
    CubicInches,
    Gallons,
    Cups,
    Teaspoons,
    Milliliters,
    CubicMeters,
    Drops,
    Drams,
    Litres,
    Pints,
}

/// A unit of mass; grams are the canonical unit.
#[derive(Clone, Copy, Debug, PartialEq, Eq, Structural)]
pub enum MassUnit {
    Micrograms,
    Milligrams,
    Carats,
    Grams,
    Kilograms,
    MetricTons,
    Grains,
    Pennyweights,
    Ounces,
    Stones,
    Pounds,
}

/// The temperature unit a token names: `F`, `C`, `K` or `R`,
/// case-insensitively.
pub open spec fn temperature_token_unit(t: Seq<char>) -> Option<TemperatureUnit> {
    if t.len() == 1 {
        if eq_ignore_ascii_case(t[0], 'f') {
            Some(TemperatureUnit::Fahrenheit)
        } else if eq_ignore_ascii_case(t[0], 'c') {
            Some(TemperatureUnit::Celsius)
        } else if eq_ignore_ascii_case(t[0], 'k') {
            Some(TemperatureUnit::Kelvin)
        } else if eq_ignore_ascii_case(t[0], 'r') {
            Some(TemperatureUnit::Rankine)
        } else {
            None
        }
    } else {
        None
    }
}

/// The volume unit a token names.  Letter tokens are case-insensitive; the
/// micro-drop and dram-sign symbol units are matched exactly.
pub open spec fn volume_token_unit(t: Seq<char>) -> Option<VolumeUnit> {
    if t.len() == 1 {
        if eq_ignore_ascii_case(t[0], 'l') {
            Some(VolumeUnit::Litres)
        } else if eq_ignore_ascii_case(t[0], 'p') {
            Some(VolumeUnit::Pints)
        } else if t[0] == '\u{0292}' {
            Some(VolumeUnit::Pints)
        } else {
            None
        }
    } else if t.len() == 2 {
        if eq_ignore_ascii_case(t[0], 'm') && eq_ignore_ascii_case(t[1], 'l') {
            Some(VolumeUnit::Milliliters)
        } else if eq_ignore_ascii_case(t[0], 'm') && t[1] == '3' {
            Some(VolumeUnit::CubicMeters)
        } else if t[0] == '\u{03bc}' && t[1] == 'l' {
            Some(VolumeUnit::Drops)
        } else if eq_ignore_ascii_case(t[0], 'd') && eq_ignore_ascii_case(t[1], 'r') {
            Some(VolumeUnit::Drams)
        } else {
            None
        }
    } else if t.len() == 3 {
        if eq_ignore_ascii_case(t[0], 'c') && eq_ignore_ascii_case(t[1], 'm') && t[2] == '3' {
            Some(VolumeUnit::CubicCentimeters)
        } else if eq_ignore_ascii_case(t[0], 'f') && eq_ignore_ascii_case(t[1], 't') && t[2]
            == '3' {
            Some(VolumeUnit::CubicFeet)
        } else if eq_ignore_ascii_case(t[0], 'y') && eq_ignore_ascii_case(t[1], 'd') && t[2]
            == '3' {
            Some(VolumeUnit::CubicYards)
        } else if eq_ignore_ascii_case(t[0], 'i') && eq_ignore_ascii_case(t[1], 'n') && t[2]
            == '3' {
            Some(VolumeUnit::CubicInches)
        } else if eq_ignore_ascii_case(t[0], 'g') && eq_ignore_ascii_case(t[1], 'a')
            && eq_ignore_ascii_case(t[2], 'l') {
            Some(VolumeUnit::Gallons)
        } else if eq_ignore_ascii_case(t[0], 'c') && eq_ignore_ascii_case(t[1], 'u')
            && eq_ignore_ascii_case(t[2], 'p') {
            Some(VolumeUnit::Cups)
        } else if eq_ignore_ascii_case(t[0], 't') && eq_ignore_ascii_case(t[1], 's')
            && eq_ignore_ascii_case(t[2], 'p') {
            Some(VolumeUnit::Teaspoons)
        } else {
            None
        }
    } else {
        None
    }
}

/// The mass unit a token names; every comparison is exact, so the table is
/// case-sensitive.
pub open spec fn mass_token_unit(t: Seq<char>) -> Option<MassUnit> {
    if t.len() == 1 {
        if t[0] == 'g' {
            Some(MassUnit::Grams)
        } else if t[0] == 'T' {
            Some(MassUnit::MetricTons)
        } else {
            None
        }
    } else if t.len() == 2 {
        if (t[0] == 'u' || t[0] == '\u{03bc}') && t[1] == 'g' {
            Some(MassUnit::Micrograms)
        } else if t[0] == 'm' && t[1] == 'g' {
            Some(MassUnit::Milligrams)
        } else if t[0] == 'c' && t[1] == 't' {
            Some(MassUnit::Carats)
        } else if t[0] == 'k' && t[1] == 'g' {
            Some(MassUnit::Kilograms)
        } else if t[0] == 'g' && t[1] == 'r' {
            Some(MassUnit::Grains)
        } else if t[0] == 'o' && t[1] == 'z' {
            Some(MassUnit::Ounces)
        } else if t[0] == 's' && t[1] == 't' {
            Some(MassUnit::Stones)
        } else {
            None
        }
    } else if t.len() == 3 {
        if t[0] == 'd' && t[1] == 'w' && t[2] == 't' {
            Some(MassUnit::Pennyweights)
        } else if t[0] == 'l' && t[1] == 'b' && t[2] == 's' {
            Some(MassUnit::Pounds)
        } else {
            None
        }
    } else {
        None
    }
}

/// Executable lookup of the temperature token standing at `k`.
pub fn temperature_token_lookup(val: &str, k: usize, n: usize) -> (r: Option<TemperatureUnit>)
    requires
        n == val@.len(),
        k < n,
    ensures
        r == temperature_token_unit(val@.subrange(k as int, n as int)),
{
    let ghost t = val@.subrange(k as int, n as int);
    if n - k != 1 {
        return None;
    }
    let c = val.get_char(k);
    assert(t[0] == c);
    if char_eq_ignore_ascii_case(c, 'f') {
        Some(TemperatureUnit::Fahrenheit)
    } else if char_eq_ignore_ascii_case(c, 'c') {
        Some(TemperatureUnit::Celsius)
    } else if char_eq_ignore_ascii_case(c, 'k') {
        Some(TemperatureUnit::Kelvin)
    } else if char_eq_ignore_ascii_case(c, 'r') {
        Some(TemperatureUnit::Rankine)
    } else {
        None
    }
}

/// Executable lookup of the volume token standing at `k`.
pub fn volume_token_lookup(val: &str, k: usize, n: usize) -> (r: Option<VolumeUnit>)
    requires
        n == val@.len(),
        k < n,
    ensures
        r == volume_token_unit(val@.subrange(k as int, n as int)),
{
    let ghost t = val@.subrange(k as int, n as int);
    let len = n - k;
    if len == 1 {
        let c0 = val.get_char(k);
        assert(t[0] == c0);
        if char_eq_ignore_ascii_case(c0, 'l') {
            Some(VolumeUnit::Litres)
        } else if char_eq_ignore_ascii_case(c0, 'p') {
            Some(VolumeUnit::Pints)
        } else if c0 == '\u{0292}' {
            Some(VolumeUnit::Pints)
        } else {
            None
        }
    } else if len == 2 {
        let c0 = val.get_char(k);
        let c1 = val.get_char(k + 1);
        assert(t[0] == c0 && t[1] == c1);
        if char_eq_ignore_ascii_case(c0, 'm') && char_eq_ignore_ascii_case(c1, 'l') {
            Some(VolumeUnit::Milliliters)
        } else if char_eq_ignore_ascii_case(c0, 'm') && c1 == '3' {
            Some(VolumeUnit::CubicMeters)
        } else if c0 == '\u{03bc}' && c1 == 'l' {
            Some(VolumeUnit::Drops)
        } else if char_eq_ignore_ascii_case(c0, 'd') && char_eq_ignore_ascii_case(c1, 'r') {
            Some(VolumeUnit::Drams)
        } else {
            None
        }
    } else if len == 3 {
        let c0 = val.get_char(k);
        let c1 = val.get_char(k + 1);
        let c2 = val.get_char(k + 2);
        assert(t[0] == c0 && t[1] == c1 && t[2] == c2);
        if char_eq_ignore_ascii_case(c0, 'c') && char_eq_ignore_ascii_case(c1, 'm') && c2 == '3' {
            Some(VolumeUnit::CubicCentimeters)
        } else if char_eq_ignore_ascii_case(c0, 'f') && char_eq_ignore_ascii_case(c1, 't') && c2
            == '3' {
            Some(VolumeUnit::CubicFeet)
        } else if char_eq_ignore_ascii_case(c0, 'y') && char_eq_ignore_ascii_case(c1, 'd') && c2
            == '3' {
            Some(VolumeUnit::CubicYards)
        } else if char_eq_ignore_ascii_case(c0, 'i') && char_eq_ignore_ascii_case(c1, 'n') && c2
            == '3' {
            Some(VolumeUnit::CubicInches)
        } else if char_eq_ignore_ascii_case(c0, 'g') && char_eq_ignore_ascii_case(c1, 'a')
            && char_eq_ignore_ascii_case(c2, 'l') {
            Some(VolumeUnit::Gallons)
        } else if char_eq_ignore_ascii_case(c0, 'c') && char_eq_ignore_ascii_case(c1, 'u')
            && char_eq_ignore_ascii_case(c2, 'p') {
            Some(VolumeUnit::Cups)
        } else if char_eq_ignore_ascii_case(c0, 't') && char_eq_ignore_ascii_case(c1, 's')
            && char_eq_ignore_ascii_case(c2, 'p') {
            Some(VolumeUnit::Teaspoons)
        } else {
            None
        }
    } else {
        None
    }
}

/// Executable lookup of the mass token standing at `k`.
pub fn mass_token_lookup(val: &str, k: usize, n: usize) -> (r: Option<MassUnit>)
    requires
        n == val@.len(),
        k < n,
    ensures
        r == mass_token_unit(val@.subrange(k as int, n as int)),
{
    let ghost t = val@.subrange(k as int, n as int);
    let len = n - k;
    if len == 1 {
        let c0 = val.get_char(k);
        assert(t[0] == c0);
        if c0 == 'g' {
            Some(MassUnit::Grams)
        } else if c0 == 'T' {
            Some(MassUnit::MetricTons)
        } else {
            None
        }
    } else if len == 2 {
        let c0 = val.get_char(k);
        let c1 = val.get_char(k + 1);
        assert(t[0] == c0 && t[1] == c1);
        if (c0 == 'u' || c0 == '\u{03bc}') && c1 == 'g' {
            Some(MassUnit::Micrograms)
        } else if c0 == 'm' && c1 == 'g' {
            Some(MassUnit::Milligrams)
        } else if c0 == 'c' && c1 == 't' {
            Some(MassUnit::Carats)
        } else if c0 == 'k' && c1 == 'g' {
            Some(MassUnit::Kilograms)
        } else if c0 == 'g' && c1 == 'r' {
            Some(MassUnit::Grains)
        } else if c0 == 'o' && c1 == 'z' {
            Some(MassUnit::Ounces)
        } else if c0 == 's' && c1 == 't' {
            Some(MassUnit::Stones)
        } else {
            None
        }
    } else if len == 3 {
        let c0 = val.get_char(k);
        let c1 = val.get_char(k + 1);
        let c2 = val.get_char(k + 2);
        assert(t[0] == c0 && t[1] == c1 && t[2] == c2);
        if c0 == 'd' && c1 == 'w' && c2 == 't' {
            Some(MassUnit::Pennyweights)
        } else if c0 == 'l' && c1 == 'b' && c2 == 's' {
            Some(MassUnit::Pounds)
        } else {
            None
        }
    } else {
        None
    }
}

} // verus!
