//! Building typed quantities from free-form measurement strings.
//!
//! Each builder accepts a string with an optional trailing unit token.  An
//! empty string stands for zero in the kind's canonical unit.  A recognized
//! trailing token selects its unit and the captured mantissa is converted;
//! an unrecognized or missing token makes the whole string a bare number in
//! the canonical unit.  The only error is a failed numeric conversion: the
//! contracts state that construction succeeds exactly when the text the
//! parse plan selects is a well-formed floating-point literal.

use vstd::prelude::*;

use crate::numeric::is_f64_literal;
use crate::parse::mass_dispatch;
use crate::parse::mass_plan;
use crate::parse::temperature_dispatch;
use crate::parse::temperature_plan;
use crate::parse::volume_dispatch;
use crate::parse::volume_plan;
use crate::quantity::carats_from_str;
use crate::quantity::celsius_from_str;
use crate::quantity::cubic_centimeters_from_str;
use crate::quantity::cubic_feet_from_str;
use crate::quantity::cubic_inches_from_str;
use crate::quantity::cubic_meters_from_str;
use crate::quantity::cubic_yards_from_str;
use crate::quantity::cups_from_str;
use crate::quantity::drams_from_str;
use crate::quantity::drops_from_str;
use crate::quantity::fahrenheit_from_str;
use crate::quantity::gallons_from_str;
use crate::quantity::grains_from_str;
use crate::quantity::grams_from_str;
use crate::quantity::kelvin_from_str;
use crate::quantity::kilograms_from_str;
use crate::quantity::litres_from_str;
use crate::quantity::metric_tons_from_str;
use crate::quantity::micrograms_from_str;
use crate::quantity::milligrams_from_str;
use crate::quantity::milliliters_from_str;
use crate::quantity::ounces_from_str;
use crate::quantity::pennyweights_from_str;
use crate::quantity::pints_from_str;
use crate::quantity::pounds_from_str;
use crate::quantity::rankine_from_str;
use crate::quantity::stones_from_str;
use crate::quantity::teaspoons_from_str;
use crate::units::MassUnit;
use crate::units::TemperatureUnit;
use crate::units::VolumeUnit;

verus! {

/// The numeric mantissa of a measurement string could not be read as a
/// floating-point value.  Unit-token recognition itself never fails.
#[derive(Clone, Copy, Debug, PartialEq, Eq, Structural)]
pub struct NumericParseError;

/// Used to build new `measurements::Temperature` structs.
pub struct TemperatureBuilder;

impl TemperatureBuilder {
    /// Creates `measurements::Temperature` from a string.
    ///
    /// Tries to figure out the temperature unit from the string.  If the
    /// string value is a plain number, it is taken as Celsius; the empty
    /// string is zero Celsius.
    pub fn new(val: &str) -> (r: Result<measurements::Temperature, NumericParseError>)
        ensures
            r is Ok <==> is_f64_literal(temperature_plan(val@).1),
    {
        let (unit, m) = temperature_dispatch(val);
        let q = match unit {
            TemperatureUnit::Fahrenheit => fahrenheit_from_str(m.as_str()),
            TemperatureUnit::Celsius => celsius_from_str(m.as_str()),
            TemperatureUnit::Kelvin => kelvin_from_str(m.as_str()),
            TemperatureUnit::Rankine => rankine_from_str(m.as_str()),
        };
        match q {
            Some(t) => Ok(t),
            None => Err(NumericParseError),
        }
    }
}

/// Used to build new `measurements::Volume` structs.
pub struct VolumeBuilder;

impl VolumeBuilder {
    /// Creates `measurements::Volume` from a string.
    ///
    /// Tries to figure out the volume unit from the string.  If the string
    /// value is a plain number, it is taken as litres; the empty string is
    /// zero litres.
    pub fn new(val: &str) -> (r: Result<measurements::Volume, NumericParseError>)
        ensures
            r is Ok <==> is_f64_literal(volume_plan(val@).1),
    {
        let (unit, m) = volume_dispatch(val);
        let q = match unit {
            VolumeUnit::CubicCentimeters => cubic_centimeters_from_str(m.as_str()),
            VolumeUnit::CubicFeet => cubic_feet_from_str(m.as_str()),
            VolumeUnit::CubicYards => cubic_yards_from_str(m.as_str()),
            VolumeUnit::CubicInches => cubic_inches_from_str(m.as_str()),
            VolumeUnit::Gallons => gallons_from_str(m.as_str()),
            VolumeUnit::Cups => cups_from_str(m.as_str()),
            VolumeUnit::Teaspoons => teaspoons_from_str(m.as_str()),
            VolumeUnit::Milliliters => milliliters_from_str(m.as_str()),
            VolumeUnit::CubicMeters => cubic_meters_from_str(m.as_str()),
            VolumeUnit::Drops => drops_from_str(m.as_str()),
            VolumeUnit::Drams => drams_from_str(m.as_str()),
            VolumeUnit::Litres => litres_from_str(m.as_str()),
            VolumeUnit::Pints => pints_from_str(m.as_str()),
        };
        match q {
            Some(v) => Ok(v),
            None => Err(NumericParseError),
        }
    }
}

/// Used to build new `measurements::Mass` structs.
pub struct MassBuilder;

impl MassBuilder {
    /// Creates `measurements::Mass` from a string.
    ///
    /// Tries to figure out the mass unit from the string.  If the string
    /// value is a plain number, it is taken as grams; the empty string is
    /// zero grams.
    pub fn new(val: &str) -> (r: Result<measurements::Mass, NumericParseError>)
        ensures
            r is Ok <==> is_f64_literal(mass_plan(val@).1),
    {
        let (unit, m) = mass_dispatch(val);
        let q = match unit {
            MassUnit::Micrograms => micrograms_from_str(m.as_str()),
            MassUnit::Milligrams => milligrams_from_str(m.as_str()),
            MassUnit::Carats => carats_from_str(m.as_str()),
            MassUnit::Grams => grams_from_str(m.as_str()),
            MassUnit::Kilograms => kilograms_from_str(m.as_str()),
            MassUnit::MetricTons => metric_tons_from_str(m.as_str()),
            MassUnit::Grains => grains_from_str(m.as_str()),
            MassUnit::Pennyweights => pennyweights_from_str(m.as_str()),
            MassUnit::Ounces => ounces_from_str(m.as_str()),
            MassUnit::Stones => stones_from_str(m.as_str()),
            MassUnit::Pounds => pounds_from_str(m.as_str()),
        };
        match q {
            Some(v) => Ok(v),
            None => Err(NumericParseError),
        }
    }
}

} // verus!
