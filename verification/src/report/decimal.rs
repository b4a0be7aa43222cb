//! Fixed-point quantities.

use crate::text::{rounded_string, rounded_text, tenths_string, tenths_text};
use vstd::prelude::*;

verus! {

/// A non-negative quantity with two decimal places, held as the number of
/// hundredths it amounts to: `1.00` is `Decimal { hundredths: 100 }`.
///
/// Percentages, ratios, durations in seconds and milliseconds, and confidence
/// levels are all measured in this unit.
#[derive(Clone, Copy, Debug, PartialEq, Eq, Structural)]
pub struct Decimal {
    pub hundredths: u64,
}

impl Decimal {
    /// The quantity that amounts to `hundredths` hundredths.
    pub fn from_hundredths(hundredths: u64) -> (r: Decimal)
        ensures
            r.hundredths == hundredths,
    {
        Decimal { hundredths }
    }

    /// Whether the quantity is greater than the whole number `units`.
    pub open spec fn above_units(self, units: nat) -> bool {
        self.hundredths > 100 * units
    }

    /// Whether the quantity is less than the whole number `units`.
    pub open spec fn below_units(self, units: nat) -> bool {
        self.hundredths < 100 * units
    }

    /// Whether the quantity is greater than the whole number `units`.
    pub fn is_above(&self, units: u32) -> (r: bool)
        ensures
            r == self.above_units(units as nat),
    {
        self.hundredths > 100 * (units as u64)
    }

    /// Whether the quantity is less than the whole number `units`.
    pub fn is_below(&self, units: u32) -> (r: bool)
        ensures
            r == self.below_units(units as nat),
    {
        self.hundredths < 100 * (units as u64)
    }

    /// The quantity written without decimal places, rounded half to even.
    pub fn to_rounded_string(&self) -> (r: String)
        ensures
            r@ == rounded_text(self.hundredths as nat, 100),
    {
        rounded_string(self.hundredths, 100)
    }

    /// The quantity written with one decimal place, rounded half to even.
    pub fn to_tenths_string(&self) -> (r: String)
        ensures
            r@ == tenths_text(self.hundredths as nat, 100),
    {
        tenths_string(self.hundredths, 100)
    }
}

impl Default for Decimal {
    fn default() -> (r: Self)
        ensures
            r.hundredths == 0,
    {
        Decimal { hundredths: 0 }
    }
}

} // verus!
