//! The MLX90614.

use vstd::prelude::*;
use crate::device::is_created;
use crate::ic;
use crate::register_access::mlx90614::Register;
use crate::register_access::{read_next, temperature_next};
use crate::step::{BusRead, Next};
use crate::types::{Error, SlaveAddr, TempType};
use crate::Mlx9061x;

verus! {

impl Mlx9061x<ic::Mlx90614> {
    /// Create new instance of the MLX90614 device.
    ///
    /// The slave address must match the address stored in the device EEPROM.
    /// An invalid alternative slave address will return `Error::InvalidInputData`.
    ///
    /// When writing to the EEPROM waiting a certain amount of time is necessary.
    /// This delay is configured through the `eeprom_write_delay_ms` parameter
    /// in milliseconds.
    pub fn new_mlx90614<E>(address: SlaveAddr, eeprom_write_delay_ms: u8) -> (device: Result<
        Self,
        Error<E>,
    >)
        ensures
            is_created(address, eeprom_write_delay_ms, device),
    {
        Self::create(address, eeprom_write_delay_ms)
    }

    /// Read the ambient temperature in thousandths of a degree, Celsius
    /// unless Fahrenheit is asked for.
    ///
    /// Says what comes next: the read of `Register::TA` while there is no
    /// reply, then the temperature that the reply carries.
    pub fn ambient_temperature<E>(
        &self,
        temp_type: Option<TempType>,
        reply: Option<Result<[u8; 3], E>>,
    ) -> (next: Next<BusRead, i32, Error<E>>)
        ensures
            next == temperature_next(self.bus_address(), Register::TA, temp_type, reply),
    {
        self.read_temperature(Register::TA, temp_type, reply)
    }

    /// Read the temperature of the first object in thousandths of a degree,
    /// Celsius unless Fahrenheit is asked for.
    ///
    /// Says what comes next: the read of `Register::TOBJ1` while there is
    /// no reply, then the temperature that the reply carries.
    pub fn object1_temperature<E>(
        &self,
        temp_type: Option<TempType>,
        reply: Option<Result<[u8; 3], E>>,
    ) -> (next: Next<BusRead, i32, Error<E>>)
        ensures
            next == temperature_next(self.bus_address(), Register::TOBJ1, temp_type, reply),
    {
        self.read_temperature(Register::TOBJ1, temp_type, reply)
    }

    /// Read the temperature of the second object in thousandths of a
    /// degree, Celsius unless Fahrenheit is asked for.
    ///
    /// Says what comes next: the read of `Register::TOBJ2` while there is
    /// no reply, then the temperature that the reply carries.
    pub fn object2_temperature<E>(
        &self,
        temp_type: Option<TempType>,
        reply: Option<Result<[u8; 3], E>>,
    ) -> (next: Next<BusRead, i32, Error<E>>)
        ensures
            next == temperature_next(self.bus_address(), Register::TOBJ2, temp_type, reply),
    {
        self.read_temperature(Register::TOBJ2, temp_type, reply)
    }

    /// Read the raw data of the first infrared channel.
    ///
    /// Says what comes next: the read of `Register::RAW_IR1` while there is
    /// no reply, then the word that the reply carries.
    pub fn raw_ir_channel1<E>(&self, reply: Option<Result<[u8; 3], E>>) -> (next: Next<
        BusRead,
        u16,
        Error<E>,
    >)
        ensures
            next == read_next(self.bus_address(), Register::RAW_IR1, reply),
    {
        self.read_u16(Register::RAW_IR1, reply)
    }

    /// Read the raw data of the second infrared channel.
    ///
    /// Says what comes next: the read of `Register::RAW_IR2` while there is
    /// no reply, then the word that the reply carries.
    pub fn raw_ir_channel2<E>(&self, reply: Option<Result<[u8; 3], E>>) -> (next: Next<
        BusRead,
        u16,
        Error<E>,
    >)
        ensures
            next == read_next(self.bus_address(), Register::RAW_IR2, reply),
    {
        self.read_u16(Register::RAW_IR2, reply)
    }
}

} // verus!
