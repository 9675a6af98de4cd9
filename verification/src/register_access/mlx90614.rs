//! The register map of the MLX90614.

use vstd::prelude::*;

verus! {

/// The commands that read the MLX90614's RAM
pub struct Register {}

impl Register {
    /// Raw data of the first infrared channel
    pub const RAW_IR1: u8 = 0x04;
    /// Raw data of the second infrared channel
    pub const RAW_IR2: u8 = 0x05;
    /// Ambient temperature
    pub const TA: u8 = 0x06;
    /// Temperature of the first object
    pub const TOBJ1: u8 = 0x07;
    /// Temperature of the second object
    pub const TOBJ2: u8 = 0x08;
}

} // verus!
