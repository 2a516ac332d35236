//! What the beacon needs from its surroundings: a register bus to the chip
//! and a clock to wait on.
//!
//! Both are traits for the caller to implement. Each carries a log, a
//! specification-only account of what has been asked of it, and each method
//! promises to add exactly its own call to that log. The library's contracts
//! are stated over these logs. An implementation is held to the promise by
//! Verus if it is verified code; one written in plain Rust cannot define the
//! log, leaves it at its placeholder, and is trusted to make one transfer, or
//! one wait, per call.

use vstd::prelude::*;
use crate::registers::{Command, ConfigRegister, StatusRegister};

verus! {

/// The bus did not carry out a transfer.
#[derive(Clone, Copy, Debug, PartialEq, Eq, Structural)]
pub struct TransportError {}

/// One transfer on the register bus, with its outcome.
pub enum Transfer {
    /// A value stored in a configuration register, and whether the bus
    /// carried the transfer out.
    Write(ConfigRegister, u8, bool),
    /// A status register read, and the answer.
    Read(StatusRegister, Result<u8, TransportError>),
    /// A command strobe, and whether the bus carried the transfer out.
    Strobe(Command, bool),
}

/// The register bus of the chip. Each call is one transfer; the bus may
/// refuse any of them.
pub trait Transport {
    /// Every transfer asked of the bus so far, oldest first. The body is a
    /// placeholder for implementations that cannot state their own.
    open spec fn transfers(&self) -> Seq<Transfer> {
        Seq::empty()
    }

    /// Stores `value` in a configuration register.
    fn write_register(&mut self, register: ConfigRegister, value: u8) -> (result: Result<
        (),
        TransportError,
    >)
        ensures
            final(self).transfers() == old(self).transfers().push(
                Transfer::Write(register, value, result is Ok),
            ),
    ;

    /// Reads a status register.
    fn read_register(&mut self, register: StatusRegister) -> (result: Result<u8, TransportError>)
        ensures
            final(self).transfers() == old(self).transfers().push(Transfer::Read(register, result)),
    ;

    /// Sends a command strobe.
    fn write_command_strobe(&mut self, command: Command) -> (result: Result<(), TransportError>)
        ensures
            final(self).transfers() == old(self).transfers().push(
                Transfer::Strobe(command, result is Ok),
            ),
    ;
}

/// A clock that can block for a number of milliseconds.
pub trait Timer {
    /// Every wait asked of the clock so far, in milliseconds, oldest first.
    /// The body is a placeholder for implementations that cannot state their
    /// own.
    open spec fn waits(&self) -> Seq<u32> {
        Seq::empty()
    }

    /// Returns after `ms` milliseconds.
    fn delay_ms(&mut self, ms: u32)
        ensures
            final(self).waits() == old(self).waits().push(ms),
    ;
}

} // verus!
