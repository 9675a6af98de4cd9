//! The types that callers exchange with the driver.

use vstd::prelude::*;

verus! {

/// All possible errors in this crate
#[derive(Debug, PartialEq, Eq)]
pub enum Error<E> {
    /// I²C bus error
    I2C(E),
    /// CRC checksum mismatch (PEC)
    ChecksumMismatch,
    /// Invalid input data
    InvalidInputData,
}

/// Possible temperature output types
#[derive(Debug, Clone, Copy, PartialEq, Eq)]
pub enum TempType {
    /// Degrees Celsius
    Celsius,
    /// Degrees Fahrenheit
    Fahrenheit,
}

/// Possible slave addresses
#[derive(Debug, Clone, Copy, PartialEq, Eq)]
pub enum SlaveAddr {
    /// Default slave address
    Default,
    /// Alternative slave address
    Alternative(u8),
}

impl Default for SlaveAddr {
    /// Default slave address
    fn default() -> (addr: Self)
        ensures
            addr == SlaveAddr::Default,
    {
        SlaveAddr::Default
    }
}

/// A rational number `numerator / denominator`, used where the sensor
/// deals in fractions of one. A zero denominator stands for no number.
#[derive(Debug, Clone, Copy, PartialEq, Eq)]
pub struct Fraction {
    /// The part above the line
    pub numerator: i32,
    /// The part below the line
    pub denominator: u32,
}

impl Fraction {
    /// The fraction is a number between zero and one, both included.
    pub open spec fn in_unit_interval(self) -> bool {
        self.denominator > 0 && 0 <= self.numerator <= self.denominator
    }

    /// The two fractions stand for the same number.
    pub open spec fn same_value(self, other: Fraction) -> bool {
        &&& self.denominator > 0
        &&& other.denominator > 0
        &&& self.numerator * other.denominator == other.numerator * self.denominator
    }
}

} // verus!
