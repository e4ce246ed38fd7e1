//! A small I2C (two-wire) bus abstraction for AVR microcontrollers, with the
//! protocol logic of the ATmega328P's two-wire peripheral.
//!
//! The library never touches a register itself. Every bus operation is a
//! transition function: given where the operation stands and the byte that
//! the last register read produced, it names the next register access. The
//! caller performs that access on the hardware and comes back with the result.

use vstd::prelude::*;

pub mod hardware_atmega328p;
pub mod read_trace;
pub mod send_trace;
pub mod step;
pub mod trace;

verus! {

/// Represents data direction used for the R/W bit in the I2C header.
#[derive(Debug, Clone, Copy, PartialEq, Eq, Structural)]
pub enum Direction {
    Read,
    Write,
}

impl Direction {
    /// The value of the R/W bit: 1 for a read, 0 for a write.
    pub open spec fn bit(self) -> int {
        match self {
            Direction::Read => 1,
            Direction::Write => 0,
        }
    }
}

/// Represents an I2C driver.
///
/// A back-end that owns its bus implements this trait by carrying out the
/// register accesses itself. Each operation reports success or a value of
/// the error type that the back-end chose for it.
pub trait I2CBus {
    /// An error type for the `start_condition` method.
    type StartConditionError;

    /// An error type for the `stop_condition` method.
    type StopCondidionError;

    /// An error type for the `send_header` method.
    type SendHeaderError;

    /// An error type for the `send` method.
    type SendError;

    /// An error type for the `read` method.
    type ReadError;

    /// Initializes the bus.
    fn init(&self);

    /// Creates an I2C start condition on the bus.
    fn start_condition(&self) -> Result<(), Self::StartConditionError>;

    /// Creates an I2C stop condition on the bus.
    fn stop_condition(&self) -> Result<(), Self::StopCondidionError>;

    /// Sends an I2C header to the bus.
    fn send_header(&self, address: u8, direction: Direction) -> Result<(), Self::SendHeaderError>;

    /// Sends data to an I2C slave.
    fn send(&self, data: &[u8]) -> Result<(), Self::SendError>;

    /// Reads data from an I2C slave.
    fn read(&self, data: &mut [u8], end_with_nack: bool) -> Result<(), Self::ReadError>;
}

} // verus!
