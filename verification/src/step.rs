//! The vocabulary shared by the bus operations: register accesses, the phases
//! of a bus cycle, and the cursor that says where an operation stands.

use vstd::prelude::*;

use crate::hardware_atmega328p::TWSRStatus;

verus! {

/// What the caller has to do next on behalf of an operation.
#[derive(Debug, Clone, Copy, PartialEq, Eq)]
pub enum Action {
    /// Store `value` in the register at `address`.
    Write { address: u16, value: u8 },
    /// Load the register at `address` and hand the byte to the next step.
    Read { address: u16 },
    /// The operation is over, with this result.
    Finish(Result<(), TWSRStatus>),
    /// The status register held a code that the hardware does not document.
    /// The operation cannot go on; the byte is the code that was read.
    Fault(u8),
}

/// How far the current bus cycle has come.
///
/// A cycle runs through the phases in the order in which they are written
/// here. An operation that has no byte to send passes through `Loaded`
/// without a register access, and one that receives none passes through
/// `Fetched` in the same way.
#[derive(Debug, Clone, Copy, PartialEq, Eq, Structural)]
pub enum Phase {
    /// Nothing has been done for this cycle.
    Begin,
    /// The outgoing byte, if there is one, is in the data register.
    Loaded,
    /// The command bits are in the control register.
    Commanded,
    /// The control register was read; the step is handed its value.
    Polling,
    /// The status register was read; the step is handed its value.
    Sampled,
    /// The data register was read; the step is handed its value.
    Fetched,
}

/// Where an operation stands: the number of completed cycles and the phase
/// of the current one.
#[derive(Debug, Clone, Copy, PartialEq, Eq, Structural)]
pub struct Cursor {
    pub index: usize,
    pub phase: Phase,
}

impl Cursor {
    /// The cursor before the first register access of an operation.
    pub open spec fn origin() -> Cursor {
        Cursor { index: 0, phase: Phase::Begin }
    }

    /// The cursor with which every operation starts.
    pub fn start() -> (at: Cursor)
        ensures
            at == Cursor::origin(),
    {
        Cursor { index: 0, phase: Phase::Begin }
    }
}

/// One step of an operation: the access to perform and the cursor to come
/// back with.
#[derive(Debug, Clone, Copy, PartialEq, Eq)]
pub struct Step {
    pub action: Action,
    pub next: Cursor,
}

} // verus!

verus! {

/// What one phase of a bus cycle leads to.
#[derive(Debug, Clone, Copy, PartialEq, Eq)]
pub enum Turn {
    /// An access to perform, and the phase that the cycle is in after it.
    Act { action: Action, phase: Phase },
    /// The cycle is over and the bus did what was expected of it.
    Complete,
}

} // verus!
