//! The steps that the driver asks its caller to carry out on the hardware.
//!
//! An operation is a function from what the caller reports to what comes
//! next. The caller starts with nothing to report, carries out each step
//! it is given and reports how it ended, until the operation has finished.
//! A read has one step and reports the reply; the others have more and
//! report the step last carried out together with its outcome.

use vstd::prelude::*;

verus! {

/// A read on the bus: send the one byte `command` to the device at
/// `address`, then read three bytes from it.
#[derive(Debug, Clone, Copy, PartialEq, Eq)]
pub struct BusRead {
    /// The slave address of the device
    pub address: u8,
    /// The byte to send
    pub command: u8,
}

/// A read of one word of the device ID.
#[derive(Debug, Clone, Copy, PartialEq, Eq)]
pub struct IdRead {
    /// The read to carry out
    pub read: BusRead,
    /// The first word, once it has been read
    pub first: Option<u16>,
}

/// A step of a write on the bus.
#[derive(Debug, Clone, Copy, PartialEq, Eq)]
pub enum BusStep {
    /// Send the four bytes of `frame` to the device at `address`.
    Write { address: u8, frame: [u8; 4] },
    /// Block for this many milliseconds.
    DelayMs(u8),
}

/// A step on the clock line.
#[derive(Debug, Clone, Copy, PartialEq, Eq)]
pub enum PinStep {
    /// Drive the line low.
    SetLow,
    /// Block for this many milliseconds.
    DelayMs(u8),
    /// Drive the line high.
    SetHigh,
}

/// What comes next in an operation.
#[derive(Debug, PartialEq, Eq)]
pub enum Next<S, T, E> {
    /// Carry out this step and report its outcome.
    Perform(S),
    /// Carry out this step; the operation is then over, with this result.
    Conclude(S, Result<T, E>),
    /// The operation is over, with this result.
    Finished(Result<T, E>),
}

/// What the caller reports when it asks for step `i` of a run, a run
/// being the steps that it was asked for, each with the outcome it had:
/// nothing at the start, else the step before with its outcome.
pub open spec fn report_before<S, O>(run: Seq<(S, O)>, i: int) -> Option<(S, O)> {
    if i == 0 {
        None
    } else {
        Some(run[i - 1])
    }
}

} // verus!
