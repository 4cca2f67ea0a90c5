//! A small measurement-string parsing library for home-brewing calculators.
//!
//! Free-form strings such as `"123 mg"`, `"5gal"` or `"20C"` are turned into
//! typed physical quantities (temperature, volume, mass).  Each kind of
//! quantity has a table of recognized trailing unit tokens and a canonical
//! default unit (Celsius, litres, grams) that is used for bare numbers and
//! for empty input.  The trailing-token grammar and the unit dispatch are
//! verified; the floating-point construction of the final quantity is
//! delegated to the `measurements` crate behind trusted wrappers.

pub mod chars;
pub mod conversions;
pub mod laws;
pub mod numeric;
pub mod parse;
pub mod quantity;
pub mod scan;
pub mod units;
