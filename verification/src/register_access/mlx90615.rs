//! The register map of the MLX90615.

use vstd::prelude::*;

verus! {

/// The bits of a command that select the EEPROM
pub const EEPROM_COMMAND: u8 = 0x10;

/// The bits of a command that select the RAM
pub const RAM_COMMAND: u8 = 0x20;

/// How long the clock line is held low to wake the sensor, in milliseconds
pub const WAKE_DELAY_MS: u8 = 39;

/// The commands that reach the MLX90615's registers
pub struct Register {}

impl Register {
    /// Raw infrared data
    pub const RAW_IR: u8 = 0x05 | RAM_COMMAND;
    /// Ambient temperature
    pub const TA: u8 = 0x06 | RAM_COMMAND;
    /// Object temperature
    pub const TOBJ: u8 = 0x07 | RAM_COMMAND;
    /// Slave address, in EEPROM
    pub const ADDRESS: u8 = 0x00 | EEPROM_COMMAND;
    /// Emissivity, in EEPROM
    pub const EMISSIVITY: u8 = 0x03 | EEPROM_COMMAND;
    /// First word of the device ID, in EEPROM
    pub const ID0: u8 = 0x0E | EEPROM_COMMAND;
    /// Second word of the device ID, in EEPROM
    pub const ID1: u8 = 0x0F | EEPROM_COMMAND;
}

} // verus!
