//! The two-wire interface of the ATmega328P.
//!
//! Each bus operation of [`TWI`] is taken step by step. The caller starts
//! with `Cursor::start()` and any byte, performs the access that the step
//! names, and calls the operation again with the step's cursor and, after a
//! read, the byte that was read. The operation is over when the step is
//! `Action::Finish` or `Action::Fault`. Waiting for the hardware is part of
//! the steps: the control register is read again and again until it shows
//! the interrupt flag, with no limit on the number of reads.
//!
//! The hardware documents thirteen status codes. On any other value of the
//! status register an operation stops with `Action::Fault` and leaves it to
//! the caller to halt or to recover; no status is made up for it.

use vstd::prelude::*;

use crate::step::{Action, Cursor, Phase, Step, Turn};
use crate::Direction;

verus! {

/// The address of the 2-wire bit rate register
pub const TWBR: u16 = 0x00B8;

/// The address of the 2-wire status register
pub const TWSR: u16 = 0x00B9;

/// The address of the 2-wire data register
pub const TWDR: u16 = 0x00BB;

/// The address of the 2-wire control register
pub const TWCR: u16 = 0x00BC;

/// The mask for setting the TWCR interrupt bit
pub const TWINT: u8 = 0x80;

/// The mask for setting the TWCR enable acknowledge bit
pub const TWEA: u8 = 0x40;

/// The mask for setting the TWCR start condition bit
pub const TWSTA: u8 = 0x20;

/// The mask for setting the TWCR stop condition bit
pub const TWSTO: u8 = 0x10;

/// The mask for setting the TWCR enable bit
pub const TWEN: u8 = 0x04;

/// Represents status variants of the 2-wire status register
#[derive(Debug, Clone, Copy, PartialEq, Eq, Structural)]
pub enum TWSRStatus {
    StartTransmitted,
    RepeatedStartTransmitted,
    WriteHeaderTransmittedAckReceived,
    WriteHeaderTransmittedNackReceived,
    ReadHeaderTransmittedAckReceived,
    ReadHeaderTransmittedNackReceived,
    DataTransmittedAckReceived,
    DataTransmittedNackReceived,
    DataReceivedAckTransmitted,
    DataReceivedNackTransmitted,
    ArbitrationLost,
    NoInformation,
    BusError,
}

impl TWSRStatus {
    /// The value that the status register holds for this status.
    pub open spec fn code(self) -> u8 {
        match self {
            TWSRStatus::BusError => 0x00,
            TWSRStatus::StartTransmitted => 0x08,
            TWSRStatus::RepeatedStartTransmitted => 0x10,
            TWSRStatus::WriteHeaderTransmittedAckReceived => 0x18,
            TWSRStatus::WriteHeaderTransmittedNackReceived => 0x20,
            TWSRStatus::DataTransmittedAckReceived => 0x28,
            TWSRStatus::DataTransmittedNackReceived => 0x30,
            TWSRStatus::ArbitrationLost => 0x38,
            TWSRStatus::ReadHeaderTransmittedAckReceived => 0x40,
            TWSRStatus::ReadHeaderTransmittedNackReceived => 0x48,
            TWSRStatus::DataReceivedAckTransmitted => 0x50,
            TWSRStatus::DataReceivedNackTransmitted => 0x58,
            TWSRStatus::NoInformation => 0xF8,
        }
    }

    /// The status that a raw register value stands for: the one whose code
    /// it is, if there is one.
    pub open spec fn decode(value: u8) -> Option<TWSRStatus> {
        if exists|s: TWSRStatus| s.code() == value {
            Some(choose|s: TWSRStatus| s.code() == value)
        } else {
            None
        }
    }

    /// Decodes a raw TWSR value to a variant of [`Self`].
    ///
    /// If `value` is a valid TWSR status value, a `Some`
    /// value containing [`Self`] is returned.
    /// Otherwise, `None` is returned.
    pub fn from_byte(value: u8) -> (status: Option<Self>)
        ensures
            status == Self::decode(value),
            match status {
                Some(s) => s.code() == value,
                None => forall|s: TWSRStatus| s.code() != value,
            },
    {
        let status = match value {
            0x00 => Some(Self::BusError),
            0x08 => Some(Self::StartTransmitted),
            0x10 => Some(Self::RepeatedStartTransmitted),
            0x18 => Some(Self::WriteHeaderTransmittedAckReceived),
            0x20 => Some(Self::WriteHeaderTransmittedNackReceived),
            0x28 => Some(Self::DataTransmittedAckReceived),
            0x30 => Some(Self::DataTransmittedNackReceived),
            0x38 => Some(Self::ArbitrationLost),
            0x40 => Some(Self::ReadHeaderTransmittedAckReceived),
            0x48 => Some(Self::ReadHeaderTransmittedNackReceived),
            0x50 => Some(Self::DataReceivedAckTransmitted),
            0x58 => Some(Self::DataReceivedNackTransmitted),
            0xF8 => Some(Self::NoInformation),
            _ => None,
        };
        proof {
            if let Some(s) = status {
                Self::decode_of_code(s);
            }
        }
        status
    }

    /// Every status is found again from its code: no two share one.
    pub proof fn decode_of_code(s: TWSRStatus)
        ensures
            Self::decode(s.code()) == Some(s),
    {
        let t = choose|t: TWSRStatus| t.code() == s.code();
        assert(t.code() == s.code());
    }

    /// A raw value decodes to a status exactly when it is that status's code.
    pub proof fn decode_is_inverse(value: u8, s: TWSRStatus)
        ensures
            Self::decode(value) == Some(s) <==> s.code() == value,
    {
        if s.code() == value {
            Self::decode_of_code(s);
        }
        if Self::decode(value) == Some(s) {
            let t = choose|t: TWSRStatus| t.code() == value;
            assert(t.code() == value);
        }
    }
}

/// Awaits TWI hardware availability
///
/// Given the value that the TWCR was just read as, tells whether the TWI
/// hardware has finished its assigned operation. The caller polls the
/// register until this is the case.
pub fn await_hardware(control: u8) -> (ready: bool)
    ensures
        ready == (control >= TWINT),
        ready == (control & TWINT != 0),
{
    assert((control & 0x80 != 0) == (control >= 0x80)) by (bit_vector);
    control & TWINT != 0
}

/// One bus cycle: what is put on the bus, and what the bus has to answer.
#[derive(Debug, Clone, Copy, PartialEq, Eq)]
pub struct Cycle {
    /// The byte to store in the data register before the command, if any.
    pub outgoing: Option<u8>,
    /// The command bits for the control register.
    pub control: u8,
    /// The status that the hardware has to report. `None` where the cycle
    /// has no status of its own: the status register is then not read.
    pub expected: Option<TWSRStatus>,
    /// Whether the data register is read once the status was as expected.
    pub fetch: bool,
}

impl Cycle {
    /// The transition table of a bus cycle. `loaded` is the byte that the
    /// access before this phase read; it counts in `Polling` and `Sampled`
    /// only.
    pub open spec fn turn(self, phase: Phase, loaded: u8) -> Turn {
        match phase {
            Phase::Begin => match self.outgoing {
                Some(byte) => Turn::Act {
                    action: Action::Write { address: TWDR, value: byte },
                    phase: Phase::Loaded,
                },
                None => Turn::Act {
                    action: Action::Write { address: TWCR, value: self.control },
                    phase: Phase::Commanded,
                },
            },
            Phase::Loaded => Turn::Act {
                action: Action::Write { address: TWCR, value: self.control },
                phase: Phase::Commanded,
            },
            Phase::Commanded => Turn::Act {
                action: Action::Read { address: TWCR },
                phase: Phase::Polling,
            },
            Phase::Polling => if loaded < TWINT {
                Turn::Act { action: Action::Read { address: TWCR }, phase: Phase::Polling }
            } else if self.expected is Some {
                Turn::Act { action: Action::Read { address: TWSR }, phase: Phase::Sampled }
            } else {
                Turn::Complete
            },
            Phase::Sampled => match self.expected {
                None => Turn::Complete,
                Some(wanted) => match TWSRStatus::decode(loaded) {
                    None => Turn::Act { action: Action::Fault(loaded), phase: Phase::Sampled },
                    Some(status) => if status != wanted {
                        Turn::Act { action: Action::Finish(Err(status)), phase: Phase::Sampled }
                    } else if self.fetch {
                        Turn::Act {
                            action: Action::Read { address: TWDR },
                            phase: Phase::Fetched,
                        }
                    } else {
                        Turn::Complete
                    },
                },
            },
            Phase::Fetched => Turn::Complete,
        }
    }

    /// Takes the cycle one phase further.
    pub fn advance(&self, phase: Phase, loaded: u8) -> (turn: Turn)
        ensures
            turn == self.turn(phase, loaded),
    {
        match phase {
            Phase::Begin => match self.outgoing {
                Some(byte) => Turn::Act {
                    action: Action::Write { address: TWDR, value: byte },
                    phase: Phase::Loaded,
                },
                None => Turn::Act {
                    action: Action::Write { address: TWCR, value: self.control },
                    phase: Phase::Commanded,
                },
            },
            Phase::Loaded => Turn::Act {
                action: Action::Write { address: TWCR, value: self.control },
                phase: Phase::Commanded,
            },
            Phase::Commanded => Turn::Act {
                action: Action::Read { address: TWCR },
                phase: Phase::Polling,
            },
            Phase::Polling => {
                if !await_hardware(loaded) {
                    Turn::Act { action: Action::Read { address: TWCR }, phase: Phase::Polling }
                } else if self.expected.is_some() {
                    Turn::Act { action: Action::Read { address: TWSR }, phase: Phase::Sampled }
                } else {
                    Turn::Complete
                }
            },
            Phase::Sampled => match self.expected {
                None => Turn::Complete,
                Some(wanted) => match TWSRStatus::from_byte(loaded) {
                    None => Turn::Act { action: Action::Fault(loaded), phase: Phase::Sampled },
                    Some(status) => {
                        if status != wanted {
                            Turn::Act {
                                action: Action::Finish(Err(status)),
                                phase: Phase::Sampled,
                            }
                        } else if self.fetch {
                            Turn::Act {
                                action: Action::Read { address: TWDR },
                                phase: Phase::Fetched,
                            }
                        } else {
                            Turn::Complete
                        }
                    },
                },
            },
            Phase::Fetched => Turn::Complete,
        }
    }

    /// The status register is read at one point only: when the control
    /// register was just read and showed the interrupt flag. A cycle without
    /// an expected status never reads it.
    pub proof fn status_is_read_on_completion_only(self, phase: Phase, loaded: u8)
        requires
            self.turn(phase, loaded) matches Turn::Act { action, .. } && action == (Action::Read {
                address: TWSR,
            }),
        ensures
            phase == Phase::Polling,
            loaded >= TWINT,
            self.expected is Some,
    {
    }

    /// A cycle ends in failure at one point only: when the status register
    /// was just read and held the code of a status other than the expected
    /// one. That status is the error.
    pub proof fn failure_is_the_status_read(self, phase: Phase, loaded: u8, status: TWSRStatus)
        requires
            self.turn(phase, loaded) matches Turn::Act { action, .. } && action == Action::Finish(
                Err(status),
            ),
        ensures
            phase == Phase::Sampled,
            status.code() == loaded,
            self.expected is Some && self.expected != Some(status),
    {
        TWSRStatus::decode_is_inverse(loaded, status);
    }

    /// The data register is read at one point only: in a cycle that
    /// receives a byte, when the status register was just read and held the
    /// code of the expected status.
    pub proof fn data_is_fetched_on_expected_status_only(self, phase: Phase, loaded: u8)
        requires
            self.turn(phase, loaded) matches Turn::Act { action, .. } && action == (Action::Read {
                address: TWDR,
            }),
        ensures
            phase == Phase::Sampled,
            self.fetch,
            self.expected is Some && TWSRStatus::decode(loaded) == self.expected,
    {
    }

    /// A cycle that expects a status is complete at two points only: when
    /// the status register was just read and held the code of the expected
    /// status, in a cycle that receives no byte; and when the byte was
    /// fetched.
    pub proof fn completion_needs_the_expected_status(self, phase: Phase, loaded: u8)
        requires
            self.expected is Some,
            self.turn(phase, loaded) == Turn::Complete,
        ensures
            phase == Phase::Fetched || (phase == Phase::Sampled && !self.fetch
                && TWSRStatus::decode(loaded) == self.expected),
    {
    }

    /// The step of an operation that is this one cycle and nothing else.
    pub open spec fn alone(self, at: Cursor, loaded: u8) -> Step {
        match self.turn(at.phase, loaded) {
            Turn::Act { action, phase } => Step {
                action,
                next: Cursor { index: at.index, phase },
            },
            Turn::Complete => Step { action: Action::Finish(Ok(())), next: at },
        }
    }

    /// Takes an operation of one cycle a step further: the cycle's own
    /// accesses, then success.
    pub fn run_alone(&self, at: Cursor, loaded: u8) -> (step: Step)
        ensures
            step == self.alone(at, loaded),
    {
        match self.advance(at.phase, loaded) {
            Turn::Act { action, phase } => Step {
                action,
                next: Cursor { index: at.index, phase },
            },
            Turn::Complete => Step { action: Action::Finish(Ok(())), next: at },
        }
    }
}

/// Represents the hardware 2-wire interface
pub struct TWI {
    pub twbr: u8,
}

impl TWI {
    /// The bit-rate divisor for a bus clock of `freq_hz`, as an unbounded
    /// integer.
    pub open spec fn divisor(freq_hz: int) -> int
        recommends
            freq_hz > 0,
    {
        16_000_000int / (2 * freq_hz) - 8
    }

    /// Whether `freq_hz` is a bus clock whose divisor fits the bit-rate
    /// register.
    pub open spec fn supports(freq_hz: int) -> bool {
        freq_hz > 0 && 0 <= Self::divisor(freq_hz) <= 255
    }

    /// Creates a new TWI instance
    pub fn new(freq_hz: u32) -> (twi: Self)
        requires
            Self::supports(freq_hz as int),
        ensures
            twi.twbr as int == Self::divisor(freq_hz as int),
    {
        assert(freq_hz <= 1_000_000) by (nonlinear_arith)
            requires
                freq_hz > 0,
                16_000_000int / (2 * freq_hz) >= 8,
        ;
        Self { twbr: (16_000_000 / (2 * freq_hz) - 8) as u8 }
    }

    /// Creates a new TWI instance if the hardware supports the bus clock:
    /// `None` for a `freq_hz` of 0 and for one whose divisor does not fit
    /// the bit-rate register.
    pub fn try_new(freq_hz: u32) -> (twi: Option<Self>)
        ensures
            Self::supports(freq_hz as int) ==> twi is Some && twi.unwrap().twbr as int
                == Self::divisor(freq_hz as int),
            !Self::supports(freq_hz as int) ==> twi is None,
    {
        if freq_hz == 0 {
            return None;
        }
        if freq_hz > 1_000_000 {
            assert(16_000_000int / (2 * freq_hz) < 8) by (nonlinear_arith)
                requires
                    freq_hz > 1_000_000,
            ;
            return None;
        }
        let quotient: u32 = 16_000_000 / (2 * freq_hz);
        assert(quotient >= 8) by (nonlinear_arith)
            requires
                0 < freq_hz <= 1_000_000,
                quotient == 16_000_000int / (2 * freq_hz),
        ;
        if quotient > 263 {
            None
        } else {
            Some(Self::new(freq_hz))
        }
    }

    /// The register writes that bring the peripheral up, in order: the
    /// status register is cleared, the bit-rate register gets the divisor,
    /// and the control register the enable bit and no other.
    pub open spec fn init_writes(self) -> Seq<Action> {
        seq![
            Action::Write { address: TWSR, value: 0 },
            Action::Write { address: TWBR, value: self.twbr },
            Action::Write { address: TWCR, value: TWEN },
        ]
    }

    /// The cycle that puts a start condition on the bus: interrupt flag,
    /// start and enable bits; the hardware has to report the start.
    pub open spec fn start_cycle() -> Cycle {
        Cycle {
            outgoing: None,
            control: (TWINT + TWSTA + TWEN) as u8,
            expected: Some(TWSRStatus::StartTransmitted),
            fetch: false,
        }
    }

    /// The cycle that puts a stop condition on the bus: interrupt flag, stop
    /// and enable bits. No status tells a stop that failed from one that
    /// did not, so none is asked for.
    pub open spec fn stop_cycle() -> Cycle {
        Cycle {
            outgoing: None,
            control: (TWINT + TWSTO + TWEN) as u8,
            expected: None,
            fetch: false,
        }
    }

    /// The header byte: the address in the upper seven bits, the R/W bit
    /// below them. The eighth bit of `address` does not fit and is lost.
    pub open spec fn header_payload(address: u8, direction: Direction) -> u8 {
        ((2 * address + direction.bit()) % 256) as u8
    }

    /// The acknowledgement that a header of this direction has to get.
    pub open spec fn header_ack(direction: Direction) -> TWSRStatus {
        match direction {
            Direction::Read => TWSRStatus::ReadHeaderTransmittedAckReceived,
            Direction::Write => TWSRStatus::WriteHeaderTransmittedAckReceived,
        }
    }

    /// The cycle that sends the header: the payload goes out with the
    /// interrupt flag and the enable bit, and the slave has to acknowledge
    /// it for the direction asked.
    pub open spec fn header_cycle(address: u8, direction: Direction) -> Cycle {
        Cycle {
            outgoing: Some(Self::header_payload(address, direction)),
            control: (TWINT + TWEN) as u8,
            expected: Some(Self::header_ack(direction)),
            fetch: false,
        }
    }

    /// The cycle that sends one data byte, which the slave has to
    /// acknowledge.
    pub open spec fn send_cycle(byte: u8) -> Cycle {
        Cycle {
            outgoing: Some(byte),
            control: (TWINT + TWEN) as u8,
            expected: Some(TWSRStatus::DataTransmittedAckReceived),
            fetch: false,
        }
    }

    /// The cycle that receives one data byte. With `end_with_nack` the
    /// acknowledge bit is set and the hardware has to report that it
    /// acknowledged; without, that it did not.
    pub open spec fn read_cycle(end_with_nack: bool) -> Cycle {
        Cycle {
            outgoing: None,
            control: if end_with_nack {
                (TWINT + TWEN + TWEA) as u8
            } else {
                (TWINT + TWEN) as u8
            },
            expected: Some(
                if end_with_nack {
                    TWSRStatus::DataReceivedAckTransmitted
                } else {
                    TWSRStatus::DataReceivedNackTransmitted
                },
            ),
            fetch: true,
        }
    }

    /// The step of an operation that runs one cycle for each of `count`
    /// items, `cycles(i)` being the cycle of item `i`. The operation goes on
    /// to the next item when a cycle is complete, and succeeds after the
    /// last.
    pub open spec fn chain(
        cycles: spec_fn(int) -> Cycle,
        count: nat,
        at: Cursor,
        loaded: u8,
    ) -> Step {
        if at.index >= count {
            Step { action: Action::Finish(Ok(())), next: at }
        } else {
            match cycles(at.index as int).turn(at.phase, loaded) {
                Turn::Act { action, phase } => Step {
                    action,
                    next: Cursor { index: at.index, phase },
                },
                Turn::Complete => {
                    let follow = Cursor { index: (at.index + 1) as usize, phase: Phase::Begin };
                    if at.index + 1 >= count {
                        Step { action: Action::Finish(Ok(())), next: follow }
                    } else {
                        cycles(at.index + 1).alone(follow, loaded)
                    }
                },
            }
        }
    }

    /// The step of `send` on `data`.
    pub open spec fn send_step(data: Seq<u8>, at: Cursor, loaded: u8) -> Step {
        Self::chain(|i: int| Self::send_cycle(data[i]), data.len(), at, loaded)
    }

    /// The step of `read` on a buffer of `count` slots.
    pub open spec fn read_step(count: nat, end_with_nack: bool, at: Cursor, loaded: u8) -> Step {
        Self::chain(|i: int| Self::read_cycle(end_with_nack), count, at, loaded)
    }

    /// The buffer after a step of `read`: the byte that was fetched for the
    /// current slot is stored there, and nothing else changes.
    pub open spec fn read_store(data: Seq<u8>, at: Cursor, loaded: u8) -> Seq<u8> {
        if at.index < data.len() && at.phase == Phase::Fetched {
            data.update(at.index as int, loaded)
        } else {
            data
        }
    }

    /// Initializes the bus: gives the register writes to perform, in order.
    pub fn init(&self) -> (writes: [Action; 3])
        ensures
            writes@ == self.init_writes(),
    {
        let writes = [
            Action::Write { address: TWSR, value: 0x00 },
            Action::Write { address: TWBR, value: self.twbr },
            Action::Write { address: TWCR, value: TWEN },
        ];
        assert(writes@ =~= self.init_writes());
        writes
    }

    /// Creates an I2C start condition on the bus.
    ///
    /// Succeeds if the hardware reports that the start was transmitted, and
    /// fails with the status that it reports otherwise.
    pub fn start_condition(&self, at: Cursor, loaded: u8) -> (step: Step)
        ensures
            step == Self::start_cycle().alone(at, loaded),
            at.phase == Phase::Begin ==> step.action == (Action::Write {
                address: TWCR,
                value: 0xA4,
            }),
            at.phase == Phase::Sampled ==> (step.action == Action::Finish(Ok(()))
                <==> TWSRStatus::decode(loaded) == Some(TWSRStatus::StartTransmitted)),
            at.phase == Phase::Sampled ==> forall|status: TWSRStatus|
                TWSRStatus::decode(loaded) == Some(status) && status
                    != TWSRStatus::StartTransmitted ==> step.action == Action::Finish(
                    Err(status),
                ),
    {
        assert(0x80u8 | 0x20u8 | 0x04u8 == 0xA4u8) by (bit_vector);
        let cycle = Cycle {
            outgoing: None,
            control: TWINT | TWSTA | TWEN,
            expected: Some(TWSRStatus::StartTransmitted),
            fetch: false,
        };
        cycle.run_alone(at, loaded)
    }

    /// Creates an I2C stop condition on the bus.
    ///
    /// Succeeds as soon as the hardware has finished, whatever the status
    /// register holds: it is not read.
    pub fn stop_condition(&self, at: Cursor, loaded: u8) -> (step: Step)
        ensures
            step == Self::stop_cycle().alone(at, loaded),
            at.phase == Phase::Begin ==> step.action == (Action::Write {
                address: TWCR,
                value: 0x94,
            }),
            step.action !is Fault,
            step.action is Finish ==> step.action == Action::Finish(Ok(())),
            step.action != (Action::Read { address: TWSR }),
    {
        assert(0x80u8 | 0x10u8 | 0x04u8 == 0x94u8) by (bit_vector);
        let cycle = Cycle {
            outgoing: None,
            control: TWINT | TWSTO | TWEN,
            expected: None,
            fetch: false,
        };
        cycle.run_alone(at, loaded)
    }

    /// Sends an I2C header to the bus.
    ///
    /// Succeeds if the slave acknowledges the header for the direction that
    /// was asked, and fails with the reported status otherwise.
    pub fn send_header(&self, address: u8, direction: Direction, at: Cursor, loaded: u8) -> (step:
        Step)
        ensures
            step == Self::header_cycle(address, direction).alone(at, loaded),
            at.phase == Phase::Begin ==> step.action == (Action::Write {
                address: TWDR,
                value: Self::header_payload(address, direction),
            }),
            address < 128 ==> Self::header_payload(address, direction) == 2 * address
                + direction.bit(),
            at.phase == Phase::Sampled ==> (step.action == Action::Finish(Ok(()))
                <==> TWSRStatus::decode(loaded) == Some(Self::header_ack(direction))),
    {
        let bit: u8 = match direction {
            Direction::Read => 1,
            Direction::Write => 0,
        };
        assert(bit == 0 || bit == 1);
        assert((address << 1) | bit == ((2 * (address as u16) + (bit as u16)) % 256) as u8)
            by (bit_vector)
            requires
                bit == 0 || bit == 1,
        ;
        assert(0x80u8 | 0x04u8 == 0x84u8) by (bit_vector);
        let payload: u8 = (address << 1) | bit;
        let cycle = Cycle {
            outgoing: Some(payload),
            control: TWINT | TWEN,
            expected: Some(
                match direction {
                    Direction::Read => TWSRStatus::ReadHeaderTransmittedAckReceived,
                    Direction::Write => TWSRStatus::WriteHeaderTransmittedAckReceived,
                },
            ),
            fetch: false,
        };
        cycle.run_alone(at, loaded)
    }

    /// Takes an operation of `count` cycles a step further, `cycle` being
    /// the cycle at the cursor and `following` the one after it.
    fn run_chain(cycle: Cycle, following: Cycle, count: usize, at: Cursor, loaded: u8) -> (step:
        Step)
        requires
            at.index < count,
        ensures
            step == Self::chain(
                |i: int| if i == at.index { cycle } else { following },
                count as nat,
                at,
                loaded,
            ),
    {
        match cycle.advance(at.phase, loaded) {
            Turn::Act { action, phase } => Step {
                action,
                next: Cursor { index: at.index, phase },
            },
            Turn::Complete => {
                let follow = Cursor { index: at.index + 1, phase: Phase::Begin };
                if follow.index >= count {
                    Step { action: Action::Finish(Ok(())), next: follow }
                } else {
                    following.run_alone(follow, loaded)
                }
            },
        }
    }

    /// Sends data to an I2C slave.
    ///
    /// The bytes go out in order, each in a cycle of its own. A byte is
    /// written only once the slave has acknowledged the one before it; the
    /// first status that is no acknowledgement ends the operation with that
    /// status, and the bytes after it are not written.
    pub fn send(&self, data: &[u8], at: Cursor, loaded: u8) -> (step: Step)
        ensures
            step == Self::send_step(data@, at, loaded),
            at.index >= data@.len() ==> step.action == Action::Finish(Ok(())),
            at.index < data@.len() && at.phase == Phase::Begin ==> step.action == (Action::Write {
                address: TWDR,
                value: data@[at.index as int],
            }),
            at.index < data@.len() && at.phase == Phase::Sampled ==> forall|status: TWSRStatus|
                TWSRStatus::decode(loaded) == Some(status) && status
                    != TWSRStatus::DataTransmittedAckReceived ==> step.action == Action::Finish(
                    Err(status),
                ),
    {
        assert(0x80u8 | 0x04u8 == 0x84u8) by (bit_vector);
        if at.index >= data.len() {
            return Step { action: Action::Finish(Ok(())), next: at };
        }
        let cycle = Cycle {
            outgoing: Some(data[at.index]),
            control: TWINT | TWEN,
            expected: Some(TWSRStatus::DataTransmittedAckReceived),
            fetch: false,
        };
        let following = if at.index + 1 < data.len() {
            Cycle { outgoing: Some(data[at.index + 1]), ..cycle }
        } else {
            cycle
        };
        Self::run_chain(cycle, following, data.len(), at, loaded)
    }

    /// Reads data from an I2C slave.
    ///
    /// The slots are filled in order, each in a cycle of its own. With
    /// `end_with_nack` every byte of the call is acknowledged, without it
    /// none is. A slot gets its byte only once the hardware has reported
    /// the status that goes with the flag; the first other status ends the
    /// operation with that status, and the slots from there on keep what
    /// they held.
    pub fn read(&self, data: &mut [u8], end_with_nack: bool, at: Cursor, loaded: u8) -> (step:
        Step)
        ensures
            step == Self::read_step(old(data)@.len(), end_with_nack, at, loaded),
            final(data)@ == Self::read_store(old(data)@, at, loaded),
            at.index >= old(data)@.len() ==> step.action == Action::Finish(Ok(())),
            at.index < old(data)@.len() && at.phase == Phase::Sampled ==> forall|
                status: TWSRStatus,
            |
                TWSRStatus::decode(loaded) == Some(status) && status != Self::read_cycle(
                    end_with_nack,
                ).expected.unwrap() ==> step.action == Action::Finish(Err(status)),
    {
        assert(0x80u8 | 0x04u8 | 0x00u8 == 0x84u8) by (bit_vector);
        assert(0x80u8 | 0x04u8 | 0x40u8 == 0xC4u8) by (bit_vector);
        if at.index >= data.len() {
            return Step { action: Action::Finish(Ok(())), next: at };
        }
        if at.phase == Phase::Fetched {
            data[at.index] = loaded;
        }
        let cycle = Cycle {
            outgoing: None,
            control: TWINT | TWEN | if end_with_nack {
                TWEA
            } else {
                0
            },
            expected: Some(
                if end_with_nack {
                    TWSRStatus::DataReceivedAckTransmitted
                } else {
                    TWSRStatus::DataReceivedNackTransmitted
                },
            ),
            fetch: true,
        };
        Self::run_chain(cycle, cycle, data.len(), at, loaded)
    }
}

} // verus!
