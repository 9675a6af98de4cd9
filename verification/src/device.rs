//! The device itself.

use vstd::prelude::*;
use core::marker::PhantomData;
use crate::register_access::DEV_ADDR;
use crate::types::{Error, SlaveAddr};

verus! {

/// An MLX90614 or MLX90615, as far as the driver has to remember it: the
/// address it answers to and the time its EEPROM needs after a write.
/// `IC` is one of the markers of `ic` and selects the register map.
#[derive(Debug)]
pub struct Mlx9061x<IC> {
    pub(crate) eeprom_write_delay_ms: u8,
    pub(crate) address: u8,
    pub(crate) _ic: PhantomData<IC>,
}

/// A slave address that a sensor can have: seven bits, and not zero, which
/// every sensor on the bus answers to.
pub open spec fn is_valid_address(address: u8) -> bool {
    0 < address <= 0x7F
}

/// The address that a choice of address resolves to, if any.
pub open spec fn resolved_address(address: SlaveAddr, default: u8) -> Option<u8> {
    match address {
        SlaveAddr::Default => Some(default),
        SlaveAddr::Alternative(a) => if is_valid_address(a) {
            Some(a)
        } else {
            None
        },
    }
}

/// `device` is what creating a device with these arguments gives: with a
/// default or valid address, a device at that address that keeps the time
/// to settle; with any other address, the error for invalid input.
pub open spec fn is_created<IC, E>(
    address: SlaveAddr,
    eeprom_write_delay_ms: u8,
    device: Result<Mlx9061x<IC>, Error<E>>,
) -> bool {
    match resolved_address(address, DEV_ADDR) {
        Some(a) => device matches Ok(d) && d.bus_address() == a && d.settle_ms()
            == eeprom_write_delay_ms,
        None => device matches Err(e) && e == Error::<E>::InvalidInputData,
    }
}

impl<IC> Mlx9061x<IC> {
    #[verifier::type_invariant]
    pub open(crate) spec fn well_formed(self) -> bool {
        is_valid_address(self.address)
    }

    /// The slave address that the device was created with.
    pub open(crate) spec fn bus_address(&self) -> u8 {
        self.address
    }

    /// The time to wait after a write to the EEPROM, in milliseconds.
    pub open(crate) spec fn settle_ms(&self) -> u8 {
        self.eeprom_write_delay_ms
    }

    /// A device at the address that `address` resolves to.
    pub(crate) fn create<E>(address: SlaveAddr, eeprom_write_delay_ms: u8) -> (device: Result<
        Self,
        Error<E>,
    >)
        ensures
            is_created(address, eeprom_write_delay_ms, device),
    {
        let address: u8 = match Self::get_address::<E>(address, DEV_ADDR) {
            Ok(a) => a,
            Err(e) => {
                return Err(e);
            },
        };
        Ok(Mlx9061x { eeprom_write_delay_ms, address, _ic: PhantomData })
    }

    /// Resolves a choice of slave address: the default to `default`, an
    /// alternative to itself if it is valid.
    pub fn get_address<E>(address: SlaveAddr, default: u8) -> (resolved: Result<u8, Error<E>>)
        ensures
            match resolved_address(address, default) {
                Some(a) => resolved == Ok::<u8, Error<E>>(a),
                None => resolved == Err::<u8, Error<E>>(Error::InvalidInputData),
            },
    {
        match address {
            SlaveAddr::Default => Ok(default),
            SlaveAddr::Alternative(a) => if a == 0 || a > 0x7F {
                Err(Error::InvalidInputData)
            } else {
                Ok(a)
            },
        }
    }

    /// The slave address that the device was created with.
    pub fn address(&self) -> (address: u8)
        ensures
            address == self.bus_address(),
            is_valid_address(address),
    {
        proof {
            use_type_invariant(self);
        }
        self.address
    }

    /// The time to wait after a write to the EEPROM, in milliseconds.
    pub fn eeprom_write_delay_ms(&self) -> (ms: u8)
        ensures
            ms == self.settle_ms(),
    {
        self.eeprom_write_delay_ms
    }
}

} // verus!
