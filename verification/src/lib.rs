//! Cycling arithmetic in exact fixed-point numbers: tyre pressure, power
//! zones, watts per kilogram, gearing, and cadence against speed.
//!
//! Every quantity that is not a whole number is held in thousandths of its
//! unit, every result is the exact value of its formula rounded once to the
//! resolution it is shown at, and a division by zero yields one of the three
//! non-finite outcomes instead of a panic.

pub mod figure;
pub mod gearing;
pub mod rounding;
pub mod text;
pub mod tyre;
pub mod wkg;
pub mod zones;
