//! The MLX90615.

use vstd::prelude::*;
use crate::conversion::{emissivity_from_raw, emissivity_of, emissivity_raw, emissivity_to_raw};
use crate::device::{is_created, resolved_address};
use crate::ic;
use crate::register_access::mlx90615::{Register, WAKE_DELAY_MS};
use crate::register_access::{
    is_eeprom_write_next,
    read_next,
    read_outcome,
    temperature_next,
    DEV_ADDR,
};
use crate::step::{report_before, BusRead, BusStep, IdRead, Next, PinStep};
use crate::types::{Error, Fraction, SlaveAddr, TempType};
use crate::Mlx9061x;

verus! {

/// What comes next in a read of the emissivity: the read of its register
/// while there is no reply, then the end, with what the reply yields, the
/// word taken as 16384ths of one.
pub open spec fn emissivity_next<E>(address: u8, reply: Option<Result<[u8; 3], E>>) -> Next<
    BusRead,
    Fraction,
    Error<E>,
> {
    match reply {
        None => Next::Perform(BusRead { address, command: Register::EMISSIVITY }),
        Some(reply) => Next::Finished(
            match read_outcome(address, Register::EMISSIVITY, reply) {
                Ok(raw) => Ok(emissivity_of(raw)),
                Err(e) => Err(e),
            },
        ),
    }
}

/// The device ID that two words make, the first word in the upper half.
pub open spec fn device_id_of(id0: u16, id1: u16) -> u32 {
    (id0 * 65536 + id1) as u32
}

/// The device ID holds both words whole: the first is its upper half, the
/// second its lower half.
pub proof fn lemma_device_id_halves(id0: u16, id1: u16)
    ensures
        device_id_of(id0, id1) == id0 * 65536 + id1,
        device_id_of(id0, id1) / 65536 == id0,
        device_id_of(id0, id1) % 65536 == id1,
{
}

/// What comes next in a read of the device ID: the read of the first
/// word, then, if its reply is accepted, the read of the second, then the
/// two words as one. A reply that is not accepted ends the operation.
pub open spec fn device_id_next<E>(
    address: u8,
    report: Option<(IdRead, Result<[u8; 3], E>)>,
) -> Next<IdRead, u32, Error<E>> {
    match report {
        None => Next::Perform(
            IdRead { read: BusRead { address, command: Register::ID0 }, first: None },
        ),
        Some((asked, reply)) => match asked.first {
            None => match read_outcome(address, Register::ID0, reply) {
                Ok(id0) => Next::Perform(
                    IdRead { read: BusRead { address, command: Register::ID1 }, first: Some(id0) },
                ),
                Err(e) => Next::Finished(Err(e)),
            },
            Some(id0) => match read_outcome(address, Register::ID1, reply) {
                Ok(id1) => Next::Finished(Ok(device_id_of(id0, id1))),
                Err(e) => Next::Finished(Err(e)),
            },
        },
    }
}

/// What comes next in a wake pulse, given the step last carried out and
/// its outcome.
///
/// The line goes low, stays low for `WAKE_DELAY_MS` milliseconds and goes
/// high again. A step that failed ends the pulse with its error, so the
/// line is never driven high after it could not be driven low.
pub open spec fn wake_next<E>(report: Option<(PinStep, Result<(), E>)>) -> Next<PinStep, (), E> {
    match report {
        None => Next::Perform(PinStep::SetLow),
        Some((_, Err(e))) => Next::Finished(Err(e)),
        Some((PinStep::SetLow, Ok(_))) => Next::Perform(PinStep::DelayMs(WAKE_DELAY_MS)),
        Some((PinStep::DelayMs(_), Ok(_))) => Next::Perform(PinStep::SetHigh),
        Some((PinStep::SetHigh, Ok(_))) => Next::Finished(Ok(())),
    }
}

/// `run` is a course that a wake pulse can take: each entry is a step that
/// the caller was asked for, with the outcome it had.
pub open spec fn is_wake_run<E>(run: Seq<(PinStep, Result<(), E>)>) -> bool {
    forall|i: int|
        0 <= i < run.len() ==> wake_next(#[trigger] report_before(run, i)) == Next::<
            PinStep,
            (),
            E,
        >::Perform(run[i].0)
}

/// However the steps end, a wake pulse drives the line low first, holds it
/// for `WAKE_DELAY_MS` milliseconds only if that succeeded, drives it high
/// only after the hold, and asks for nothing more. It ends at the first
/// failure, with that failure, and in success only once the line went high.
pub proof fn lemma_wake_order<E>(run: Seq<(PinStep, Result<(), E>)>)
    requires
        is_wake_run(run),
    ensures
        run.len() <= 3,
        run.len() > 0 ==> run[0].0 == PinStep::SetLow,
        run.len() > 1 ==> run[0].1.is_ok() && run[1].0 == PinStep::DelayMs(WAKE_DELAY_MS),
        run.len() > 2 ==> run[1].1.is_ok() && run[2].0 == PinStep::SetHigh,
        forall|report: Option<(PinStep, Result<(), E>)>|
            #[trigger] wake_next(report) == Next::<PinStep, (), E>::Finished(Ok(())) ==> (
            report matches Some((PinStep::SetHigh, Ok(_)))),
        forall|step: PinStep, e: E| #[trigger]
            wake_next(Some((step, Err(e)))) == Next::<PinStep, (), E>::Finished(Err(e)),
{
    if run.len() > 0 {
        assert(report_before(run, 0) is None);
    }
    if run.len() > 1 {
        assert(report_before(run, 1) == Some(run[0]));
    }
    if run.len() > 2 {
        assert(report_before(run, 2) == Some(run[1]));
    }
    if run.len() > 3 {
        assert(report_before(run, 3) == Some(run[2]));
    }
}

/// The device ID comes from the first ID register and the one after it, in
/// this order, and the second is not read unless the reply to the first
/// was accepted.
pub proof fn lemma_device_id_order<E>(address: u8, run: Seq<(IdRead, Result<[u8; 3], E>)>)
    requires
        forall|i: int|
            0 <= i < run.len() ==> device_id_next(address, #[trigger] report_before(run, i))
                == Next::<IdRead, u32, Error<E>>::Perform(run[i].0),
    ensures
        run.len() <= 2,
        run.len() > 0 ==> run[0].0.read == (BusRead { address, command: Register::ID0 }),
        run.len() > 1 ==> run[1].0.read == (BusRead { address, command: Register::ID1 })
            && read_outcome(address, Register::ID0, run[0].1).is_ok(),
        run.len() > 1 ==> device_id_next(address, Some(run[1])) == Next::<
            IdRead,
            u32,
            Error<E>,
        >::Finished(
            match (
                read_outcome(address, Register::ID0, run[0].1),
                read_outcome(address, Register::ID1, run[1].1),
            ) {
                (Ok(id0), Ok(id1)) => Ok(device_id_of(id0, id1)),
                (_, Err(e)) => Err(e),
                (Err(e), _) => Err(e),
            },
        ),
{
    if run.len() > 0 {
        assert(report_before(run, 0) is None);
    }
    if run.len() > 1 {
        assert(report_before(run, 1) == Some(run[0]));
    }
    if run.len() > 2 {
        assert(report_before(run, 2) == Some(run[1]));
    }
}

impl Mlx9061x<ic::Mlx90615> {
    /// Create new instance of the MLX90615 device.
    ///
    /// The slave address must match the address stored in the device EEPROM.
    /// To change it you need to connect first and then change it with `set_address()`.
    /// An invalid alternative slave address will return `Error::InvalidInputData`.
    ///
    /// When writing to the EEPROM waiting a certain amount of time is necessary.
    /// This delay is configured through the `eeprom_write_delay_ms` parameter
    /// in milliseconds.
    pub fn new_mlx90615<E>(address: SlaveAddr, eeprom_write_delay_ms: u8) -> (device: Result<
        Self,
        Error<E>,
    >)
        ensures
            is_created(address, eeprom_write_delay_ms, device),
    {
        Self::create(address, eeprom_write_delay_ms)
    }

    /// Read the ambient temperature in thousandths of a degree, Celsius
    /// unless Fahrenheit is asked for.
    ///
    /// Says what comes next: the read of `Register::TA` while there is no
    /// reply, then the temperature that the reply carries.
    pub fn ambient_temperature<E>(
        &self,
        temp_type: Option<TempType>,
        reply: Option<Result<[u8; 3], E>>,
    ) -> (next: Next<BusRead, i32, Error<E>>)
        ensures
            next == temperature_next(self.bus_address(), Register::TA, temp_type, reply),
    {
        self.read_temperature(Register::TA, temp_type, reply)
    }

    /// Read the object temperature in thousandths of a degree, Celsius
    /// unless Fahrenheit is asked for.
    ///
    /// Says what comes next: the read of `Register::TOBJ` while there is no
    /// reply, then the temperature that the reply carries.
    pub fn object_temperature<E>(
        &self,
        temp_type: Option<TempType>,
        reply: Option<Result<[u8; 3], E>>,
    ) -> (next: Next<BusRead, i32, Error<E>>)
        ensures
            next == temperature_next(self.bus_address(), Register::TOBJ, temp_type, reply),
    {
        self.read_temperature(Register::TOBJ, temp_type, reply)
    }

    /// Read the raw IR data
    ///
    /// Says what comes next: the read of `Register::RAW_IR` while there is
    /// no reply, then the word that the reply carries.
    pub fn raw_ir<E>(&self, reply: Option<Result<[u8; 3], E>>) -> (next: Next<
        BusRead,
        u16,
        Error<E>,
    >)
        ensures
            next == read_next(self.bus_address(), Register::RAW_IR, reply),
    {
        self.read_u16(Register::RAW_IR, reply)
    }

    /// Get emissivity epsilon
    ///
    /// Says what comes next: the read of `Register::EMISSIVITY` while there
    /// is no reply, then the fraction of one that the reply carries.
    pub fn emissivity<E>(&self, reply: Option<Result<[u8; 3], E>>) -> (next: Next<
        BusRead,
        Fraction,
        Error<E>,
    >)
        ensures
            next == emissivity_next(self.bus_address(), reply),
    {
        match reply {
            None => Next::Perform(BusRead { address: self.address, command: Register::EMISSIVITY }),
            Some(reply) => match self.decode_u16(Register::EMISSIVITY, reply) {
                Ok(raw) => Next::Finished(Ok(emissivity_from_raw(raw))),
                Err(e) => Next::Finished(Err(e)),
            },
        }
    }

    /// Set emissivity epsilon [0.0-1.0]
    ///
    /// Wrong values will return `Error::InvalidInputData`, at once and
    /// whatever `report` is: no step is ever asked for. For
    /// the others, this says what comes next in the write of the nearest
    /// 16384th to the EEPROM, as `write_u16_eeprom` does.
    pub fn set_emissivity<E>(
        &self,
        epsilon: Fraction,
        report: Option<(BusStep, Result<(), E>)>,
    ) -> (next: Next<BusStep, (), Error<E>>)
        ensures
            !epsilon.in_unit_interval() ==> next == Next::<BusStep, (), Error<E>>::Finished(
                Err(Error::InvalidInputData),
            ),
            epsilon.in_unit_interval() ==> is_eeprom_write_next(
                self.bus_address(),
                self.settle_ms(),
                Register::EMISSIVITY,
                emissivity_raw(epsilon) as u16,
                report,
                next,
            ),
    {
        match emissivity_to_raw(epsilon) {
            None => Next::Finished(Err(Error::InvalidInputData)),
            Some(raw) => self.write_u16_eeprom(Register::EMISSIVITY, raw, report),
        }
    }

    /// Change the slave address stored in the device EEPROM.
    ///
    /// An invalid alternative slave address will return
    /// `Error::InvalidInputData`, at once and whatever `report` is. For
    /// the others, this says what comes next in the write of the
    /// address to the EEPROM, as `write_u16_eeprom` does. The device goes
    /// on under the address it was created with: to reach the sensor
    /// again, create a device with the new one.
    pub fn set_address<E>(
        &self,
        address: SlaveAddr,
        report: Option<(BusStep, Result<(), E>)>,
    ) -> (next: Next<BusStep, (), Error<E>>)
        ensures
            match resolved_address(address, DEV_ADDR) {
                None => next == Next::<BusStep, (), Error<E>>::Finished(Err(Error::InvalidInputData)),
                Some(a) => is_eeprom_write_next(
                    self.bus_address(),
                    self.settle_ms(),
                    Register::ADDRESS,
                    a as u16,
                    report,
                    next,
                ),
            },
    {
        match Self::get_address::<E>(address, DEV_ADDR) {
            Err(e) => Next::Finished(Err(e)),
            Ok(a) => self.write_u16_eeprom(Register::ADDRESS, a as u16, report),
        }
    }

    /// Get the device ID
    ///
    /// Says what comes next. `report` is the read that the caller has just
    /// carried out with its reply, `None` at the start. The caller carries
    /// out the read it is given and calls again, until the ID is there.
    pub fn device_id<E>(&self, report: Option<(IdRead, Result<[u8; 3], E>)>) -> (next: Next<
        IdRead,
        u32,
        Error<E>,
    >)
        ensures
            next == device_id_next(self.bus_address(), report),
    {
        let (asked, reply) = match report {
            None => {
                return Next::Perform(
                    IdRead {
                        read: BusRead { address: self.address, command: Register::ID0 },
                        first: None,
                    },
                );
            },
            Some(report) => report,
        };
        match asked.first {
            None => match self.decode_u16(Register::ID0, reply) {
                Ok(id0) => Next::Perform(
                    IdRead {
                        read: BusRead { address: self.address, command: Register::ID1 },
                        first: Some(id0),
                    },
                ),
                Err(e) => Next::Finished(Err(e)),
            },
            Some(id0) => match self.decode_u16(Register::ID1, reply) {
                Ok(id1) => {
                    assert(((id0 as u32) << 16) | (id1 as u32) == id0 * 65536 + id1)
                        by (bit_vector);
                    Next::Finished(Ok(((id0 as u32) << 16) | (id1 as u32)))
                },
                Err(e) => Next::Finished(Err(e)),
            },
        }
    }
}

/// Wake device from sleep mode.
///
/// Says what comes next in the pulse on the clock line that wakes the
/// sensor. `report` is the step that the caller has just carried out with
/// its outcome, `None` at the start. The caller carries out the step it is
/// given and calls again, until the pulse has finished.
///
/// Note that this includes a 39ms delay.
pub fn wake_mlx90615<E>(report: Option<(PinStep, Result<(), E>)>) -> (next: Next<PinStep, (), E>)
    ensures
        next == wake_next(report),
{
    match report {
        None => Next::Perform(PinStep::SetLow),
        Some((_, Err(e))) => Next::Finished(Err(e)),
        Some((PinStep::SetLow, Ok(_))) => Next::Perform(PinStep::DelayMs(WAKE_DELAY_MS)),
        Some((PinStep::DelayMs(_), Ok(_))) => Next::Perform(PinStep::SetHigh),
        Some((PinStep::SetHigh, Ok(_))) => Next::Finished(Ok(())),
    }
}

} // verus!
