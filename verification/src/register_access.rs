//! Framing and validation of register transfers.

use vstd::prelude::*;
use crate::conversion::{temperature, temperature_millis};
use crate::crc::{crc8, crc8_of, lemma_crc8_sees_one_changed_byte};
use crate::step::{BusRead, BusStep, Next};
use crate::types::{Error, TempType};
use crate::Mlx9061x;

pub mod mlx90614;
pub mod mlx90615;

verus! {

/// The sensors' slave address as they leave the factory
pub const DEV_ADDR: u8 = 0x5A;

/// The address byte that opens a write to the device at `address`.
pub open spec fn write_address_byte(address: u8) -> u8 {
    address << 1
}

/// The address byte that opens a read from the device at `address`.
pub open spec fn read_address_byte(address: u8) -> u8 {
    ((address << 1) + 1) as u8
}

/// The bytes that the checksum of a register read covers: both address
/// bytes, the register and the two data bytes, in the order of the wire.
pub open spec fn read_frame(address: u8, register: u8, low: u8, high: u8) -> Seq<u8> {
    seq![write_address_byte(address), register, read_address_byte(address), low, high]
}

/// The word that two data bytes carry, least significant byte first.
pub open spec fn word_of(low: u8, high: u8) -> u16 {
    (low + 256 * high) as u16
}

/// What a register read yields, given what came back from the bus: the
/// bus's own error, a checksum mismatch where the third byte is not the
/// checksum of the frame, else the word.
pub open spec fn read_outcome<E>(address: u8, register: u8, reply: Result<[u8; 3], E>) -> Result<
    u16,
    Error<E>,
> {
    match reply {
        Err(e) => Err(Error::I2C(e)),
        Ok(data) => if crc8_of(read_frame(address, register, data[0], data[1])) == data[2] {
            Ok(word_of(data[0], data[1]))
        } else {
            Err(Error::ChecksumMismatch)
        },
    }
}

/// What comes next in a read of `register`: the read itself while there is
/// no reply, then the end, with what the reply yields.
pub open spec fn read_next<E>(address: u8, register: u8, reply: Option<Result<[u8; 3], E>>) -> Next<
    BusRead,
    u16,
    Error<E>,
> {
    match reply {
        None => Next::Perform(BusRead { address, command: register }),
        Some(reply) => Next::Finished(read_outcome(address, register, reply)),
    }
}

/// What a read of a temperature register yields: what the read itself
/// yields, the word converted to thousandths of a degree.
pub open spec fn temperature_outcome<E>(
    address: u8,
    register: u8,
    temp_type: Option<TempType>,
    reply: Result<[u8; 3], E>,
) -> Result<i32, Error<E>> {
    match read_outcome(address, register, reply) {
        Ok(raw) => Ok(temperature_millis(raw, temp_type) as i32),
        Err(e) => Err(e),
    }
}

/// What comes next in a read of the temperature register `register`: the
/// read itself while there is no reply, then the end, with what the reply
/// yields.
pub open spec fn temperature_next<E>(
    address: u8,
    register: u8,
    temp_type: Option<TempType>,
    reply: Option<Result<[u8; 3], E>>,
) -> Next<BusRead, i32, Error<E>> {
    match reply {
        None => Next::Perform(BusRead { address, command: register }),
        Some(reply) => Next::Finished(temperature_outcome(address, register, temp_type, reply)),
    }
}

/// The less significant byte of a word.
pub open spec fn low_byte(value: u16) -> u8 {
    (value % 256) as u8
}

/// The more significant byte of a word.
pub open spec fn high_byte(value: u16) -> u8 {
    (value / 256) as u8
}

/// The bytes that the checksum of a register write covers: the address
/// byte, the register and the two data bytes, in the order of the wire.
pub open spec fn write_frame_covered(address: u8, register: u8, value: u16) -> Seq<u8> {
    seq![write_address_byte(address), register, low_byte(value), high_byte(value)]
}

/// The bytes sent after the address byte to write `value` to `register`:
/// the register, the word with its less significant byte first, and the
/// checksum.
pub open spec fn write_frame(address: u8, register: u8, value: u16) -> Seq<u8> {
    seq![
        register,
        low_byte(value),
        high_byte(value),
        crc8_of(write_frame_covered(address, register, value)),
    ]
}

/// How a write to the EEPROM ends when the transfer had this outcome.
pub open spec fn write_result<E>(outcome: Result<(), E>) -> Result<(), Error<E>> {
    match outcome {
        Ok(_) => Ok(()),
        Err(e) => Err(Error::I2C(e)),
    }
}

/// `next` is what follows in a write of `value` to the EEPROM register
/// `register`, given the step last carried out and its outcome.
///
/// The transfer of the frame comes first. Whether it succeeded or not, the
/// device is then left alone for `settle` milliseconds, and with that the
/// write is over, with the outcome of the transfer.
pub open spec fn is_eeprom_write_next<E>(
    address: u8,
    settle: u8,
    register: u8,
    value: u16,
    report: Option<(BusStep, Result<(), E>)>,
    next: Next<BusStep, (), Error<E>>,
) -> bool {
    match report {
        None => next matches Next::Perform(BusStep::Write { address: to, frame }) && to == address
            && frame@ == write_frame(address, register, value),
        Some((BusStep::Write { .. }, outcome)) => next == Next::<
            BusStep,
            (),
            Error<E>,
        >::Conclude(BusStep::DelayMs(settle), write_result(outcome)),
        Some((BusStep::DelayMs(_), outcome)) => next == Next::<BusStep, (), Error<E>>::Finished(
            write_result(outcome),
        ),
    }
}

/// No write to the EEPROM ends without the time to settle: after the
/// transfer the delay is asked for, however the transfer ended, and the
/// write is over without a further step only if the report is of a delay.
/// The write ends as the step reported ended.
pub proof fn lemma_eeprom_write_always_settles<E>(
    address: u8,
    settle: u8,
    register: u8,
    value: u16,
    report: Option<(BusStep, Result<(), E>)>,
    next: Next<BusStep, (), Error<E>>,
)
    requires
        is_eeprom_write_next(address, settle, register, value, report, next),
    ensures
        next is Finished ==> (report matches Some((BusStep::DelayMs(_), _))),
        next is Conclude ==> next->Conclude_0 == BusStep::DelayMs(settle),
        (report matches Some((BusStep::Write { .. }, _))) ==> next is Conclude,
        match report {
            Some((_, outcome)) => (next matches Next::Conclude(_, result) ==> result
                == write_result(outcome)) && (next matches Next::Finished(result) ==> result
                == write_result(outcome)),
            None => next is Perform,
        },
{
}

/// A reply that carries a word and the checksum of its frame is accepted,
/// and the word comes out as it went in.
pub proof fn lemma_checksummed_reply_is_read<E>(address: u8, register: u8, value: u16)
    ensures
        ({
            let low = low_byte(value);
            let high = high_byte(value);
            let pec = crc8_of(read_frame(address, register, low, high));
            forall|data: [u8; 3]|
                data[0] == low && data[1] == high && data[2] == pec ==> #[trigger] read_outcome(
                    address,
                    register,
                    Ok::<[u8; 3], E>(data),
                ) == Ok::<u16, Error<E>>(value)
        }),
{
}

/// A reply whose third byte is not the checksum of its frame is refused,
/// whatever the word: nothing of it reaches the caller.
pub proof fn lemma_corrupt_reply_is_refused<E>(address: u8, register: u8, data: [u8; 3])
    requires
        data[2] != crc8_of(read_frame(address, register, data[0], data[1])),
    ensures
        read_outcome(address, register, Ok::<[u8; 3], E>(data)) == Err::<u16, Error<E>>(
            Error::ChecksumMismatch,
        ),
{
}

/// A reply that differs in one byte from a reply that is accepted is
/// refused, whichever byte it is and however it changed.
pub proof fn lemma_one_changed_byte_is_refused<E>(
    address: u8,
    register: u8,
    sent: [u8; 3],
    received: [u8; 3],
    at: int,
)
    requires
        read_outcome(address, register, Ok::<[u8; 3], E>(sent)).is_ok(),
        0 <= at < 3,
        sent[at] != received[at],
        forall|i: int| 0 <= i < 3 && i != at ==> sent[i] == received[i],
    ensures
        read_outcome(address, register, Ok::<[u8; 3], E>(received)) == Err::<u16, Error<E>>(
            Error::ChecksumMismatch,
        ),
{
    let good = read_frame(address, register, sent[0], sent[1]);
    let bad = read_frame(address, register, received[0], received[1]);
    if at < 2 {
        assert(sent[2] == received[2]);
        lemma_crc8_sees_one_changed_byte(good, bad, at + 3);
    } else {
        assert(sent[0] == received[0] && sent[1] == received[1]);
    }
}

impl<IC> Mlx9061x<IC> {
    /// Says what comes next in a read of `register`.
    ///
    /// Without a reply, that is the read itself: `register` goes to the
    /// device as a one-byte command, and three bytes come back. The caller
    /// passes them, or the bus's error, as `reply`, and gets the word if
    /// the third byte is the checksum of the frame.
    pub fn read_u16<E>(&self, register: u8, reply: Option<Result<[u8; 3], E>>) -> (next: Next<
        BusRead,
        u16,
        Error<E>,
    >)
        ensures
            next == read_next(self.bus_address(), register, reply),
    {
        match reply {
            None => Next::Perform(BusRead { address: self.address, command: register }),
            Some(reply) => Next::Finished(self.decode_u16(register, reply)),
        }
    }

    /// Validates and decodes the reply to a read of `register`.
    pub(crate) fn decode_u16<E>(&self, register: u8, reply: Result<[u8; 3], E>) -> (value: Result<
        u16,
        Error<E>,
    >)
        ensures
            value == read_outcome(self.bus_address(), register, reply),
    {
        proof {
            use_type_invariant(self);
        }
        let data: [u8; 3] = match reply {
            Ok(data) => data,
            Err(e) => {
                return Err(Error::I2C(e));
            },
        };
        let address: u8 = self.address;
        assert(address <= 0x7F ==> (address << 1) <= 0xFE) by (bit_vector);
        let frame: [u8; 5] = [address << 1, register, (address << 1) + 1, data[0], data[1]];
        assert(frame@ =~= read_frame(address, register, data[0], data[1]));
        match Self::check_pec::<E>(frame.as_slice(), data[2]) {
            Ok(()) => {},
            Err(e) => {
                return Err(e);
            },
        }
        let low: u8 = data[0];
        let high: u8 = data[1];
        assert((low as u16) | ((high as u16) << 8) == low + 256 * high) by (bit_vector);
        Ok((low as u16) | ((high as u16) << 8))
    }

    /// Says what comes next in a read of the temperature register
    /// `register`: the read itself, then the word converted to thousandths
    /// of a degree, Celsius unless Fahrenheit is asked for.
    pub fn read_temperature<E>(
        &self,
        register: u8,
        temp_type: Option<TempType>,
        reply: Option<Result<[u8; 3], E>>,
    ) -> (next: Next<BusRead, i32, Error<E>>)
        ensures
            next == temperature_next(self.bus_address(), register, temp_type, reply),
    {
        match reply {
            None => Next::Perform(BusRead { address: self.address, command: register }),
            Some(reply) => match self.decode_u16(register, reply) {
                Ok(raw) => Next::Finished(Ok(temperature(raw, temp_type))),
                Err(e) => Next::Finished(Err(e)),
            },
        }
    }

    /// Frames a write of `value` to `register`.
    fn frame_u16(&self, register: u8, value: u16) -> (frame: [u8; 4])
        ensures
            frame@ == write_frame(self.bus_address(), register, value),
    {
        let low: u8 = (value & 0xFF) as u8;
        let high: u8 = (value >> 8) as u8;
        assert(value & 0xFF == value % 256 && value >> 8 == value / 256) by (bit_vector);
        let covered: [u8; 4] = [self.address << 1, register, low, high];
        assert(covered@ =~= write_frame_covered(self.bus_address(), register, value));
        let pec: u8 = crc8(covered.as_slice());
        let frame: [u8; 4] = [register, low, high, pec];
        assert(frame@ =~= write_frame(self.bus_address(), register, value));
        frame
    }

    /// Says what comes next in a write of `value` to the EEPROM register
    /// `register`.
    ///
    /// `report` is the step that the caller has just carried out with its
    /// outcome, `None` at the start. The caller carries out the step it is
    /// given and calls again, until the write is over. The transfer of the
    /// frame is always followed by the time to settle, which is the one the
    /// device was created with.
    pub fn write_u16_eeprom<E>(
        &self,
        register: u8,
        value: u16,
        report: Option<(BusStep, Result<(), E>)>,
    ) -> (next: Next<BusStep, (), Error<E>>)
        ensures
            is_eeprom_write_next(
                self.bus_address(),
                self.settle_ms(),
                register,
                value,
                report,
                next,
            ),
    {
        match report {
            None => Next::Perform(
                BusStep::Write { address: self.address, frame: self.frame_u16(register, value) },
            ),
            Some((BusStep::Write { .. }, outcome)) => Next::Conclude(
                BusStep::DelayMs(self.eeprom_write_delay_ms),
                Self::write_outcome(outcome),
            ),
            Some((BusStep::DelayMs(_), outcome)) => Next::Finished(Self::write_outcome(outcome)),
        }
    }

    /// Wraps the error of the bus, if there is one.
    fn write_outcome<E>(outcome: Result<(), E>) -> (result: Result<(), Error<E>>)
        ensures
            result == write_result(outcome),
    {
        match outcome {
            Ok(_) => Ok(()),
            Err(e) => Err(Error::I2C(e)),
        }
    }

    /// Compares the checksum of `data` with the one that came with it.
    pub fn check_pec<E>(data: &[u8], expected: u8) -> (checked: Result<(), Error<E>>)
        ensures
            crc8_of(data@) == expected ==> checked == Ok::<(), Error<E>>(()),
            crc8_of(data@) != expected ==> checked == Err::<(), Error<E>>(Error::ChecksumMismatch),
    {
        if crc8(data) != expected {
            Err(Error::ChecksumMismatch)
        } else {
            Ok(())
        }
    }
}

} // verus!
