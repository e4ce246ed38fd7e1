use avr_i2c::hardware_atmega328p::{
    await_hardware, Cycle, TWSRStatus, TWBR, TWCR, TWDR, TWEA, TWEN, TWI, TWINT, TWSR, TWSTA,
    TWSTO,
};
use avr_i2c::step::{Action, Cursor, Phase, Step, Turn};
use avr_i2c::Direction;

/// A scripted peripheral: the control register shows the interrupt flag
/// after `idle_polls` reads without it, the status register gives the next
/// scripted code, the data register the next scripted byte.
struct Bench {
    idle_polls: usize,
    polls_left: usize,
    status: Vec<u8>,
    incoming: Vec<u8>,
    log: Vec<Action>,
}

fn bench(idle_polls: usize, status: &[u8], incoming: &[u8]) -> Bench {
    Bench {
        idle_polls,
        polls_left: idle_polls,
        status: status.to_vec(),
        incoming: incoming.to_vec(),
        log: Vec::new(),
    }
}

fn perform(b: &mut Bench, action: Action) -> u8 {
    b.log.push(action);
    match action {
        Action::Write { .. } => 0,
        Action::Read { address } if address == TWCR => {
            if b.polls_left == 0 {
                b.polls_left = b.idle_polls;
                TWINT | TWEN
            } else {
                b.polls_left -= 1;
                TWEN
            }
        }
        Action::Read { address } if address == TWSR => b.status.remove(0),
        Action::Read { address } if address == TWDR => b.incoming.remove(0),
        other => panic!("unexpected access {:?}", other),
    }
}

fn drive(b: &mut Bench, mut op: impl FnMut(Cursor, u8) -> Step) -> Action {
    let mut at = Cursor::start();
    let mut loaded: u8 = 0;
    for _ in 0..10_000 {
        let step = op(at, loaded);
        match step.action {
            Action::Finish(_) | Action::Fault(_) => return step.action,
            access => loaded = perform(b, access),
        }
        at = step.next;
    }
    panic!("the operation did not end");
}

fn writes_to(b: &Bench, register: u16) -> Vec<u8> {
    let mut values = Vec::new();
    for action in &b.log {
        if let Action::Write { address, value } = *action {
            if address == register {
                values.push(value);
            }
        }
    }
    values
}

fn reads_of(b: &Bench, register: u16) -> usize {
    b.log.iter().filter(|a| **a == Action::Read { address: register }).count()
}

const ALL_STATUSES: [(u8, TWSRStatus); 13] = [
    (0x00, TWSRStatus::BusError),
    (0x08, TWSRStatus::StartTransmitted),
    (0x10, TWSRStatus::RepeatedStartTransmitted),
    (0x18, TWSRStatus::WriteHeaderTransmittedAckReceived),
    (0x20, TWSRStatus::WriteHeaderTransmittedNackReceived),
    (0x28, TWSRStatus::DataTransmittedAckReceived),
    (0x30, TWSRStatus::DataTransmittedNackReceived),
    (0x38, TWSRStatus::ArbitrationLost),
    (0x40, TWSRStatus::ReadHeaderTransmittedAckReceived),
    (0x48, TWSRStatus::ReadHeaderTransmittedNackReceived),
    (0x50, TWSRStatus::DataReceivedAckTransmitted),
    (0x58, TWSRStatus::DataReceivedNackTransmitted),
    (0xF8, TWSRStatus::NoInformation),
];

#[test]
fn register_map_is_bit_exact() {
    assert_eq!((TWBR, TWSR, TWDR, TWCR), (0x00B8, 0x00B9, 0x00BB, 0x00BC));
    assert_eq!((TWINT, TWEA, TWSTA, TWSTO, TWEN), (0x80, 0x40, 0x20, 0x10, 0x04));
}

#[test]
fn divisor_for_standard_mode() {
    assert_eq!(TWI::new(100_000).twbr, 72);
}

#[test]
fn divisor_for_fast_mode() {
    assert_eq!(TWI::new(400_000).twbr, 12);
}

#[test]
fn divisor_at_the_ends_of_the_range() {
    assert_eq!(TWI::new(1_000_000).twbr, 0);
    assert_eq!(TWI::new(30_304).twbr, 255);
    assert_eq!(TWI::new(30_418).twbr, 255);
    assert_eq!(TWI::new(30_419).twbr, 254);
}

#[test]
fn divisor_truncates_the_quotient() {
    // 16_000_000 / 600_000 is 26.67; the quotient is 26.
    assert_eq!(TWI::new(300_000).twbr, 18);
}

#[test]
fn try_new_agrees_with_new_on_supported_clocks() {
    for freq_hz in [30_304u32, 50_000, 100_000, 400_000, 1_000_000] {
        assert_eq!(TWI::try_new(freq_hz).map(|twi| twi.twbr), Some(TWI::new(freq_hz).twbr));
    }
    assert_eq!(TWI::try_new(100_000).map(|twi| twi.twbr), Some(72));
}

#[test]
fn try_new_refuses_clocks_without_a_divisor() {
    assert!(TWI::try_new(0).is_none());
    assert!(TWI::try_new(30_303).is_none());
    assert!(TWI::try_new(1_000_001).is_none());
    assert!(TWI::try_new(u32::MAX).is_none());
    assert!(TWI::try_new(30_304).is_some());
    assert!(TWI::try_new(1_000_000).is_some());
}

#[test]
fn from_byte_knows_the_documented_codes() {
    for (raw, status) in ALL_STATUSES {
        assert_eq!(TWSRStatus::from_byte(raw), Some(status));
    }
}

#[test]
fn from_byte_rejects_every_other_code() {
    let mut unknown = 0;
    for raw in 0..=255u8 {
        if ALL_STATUSES.iter().all(|(code, _)| *code != raw) {
            assert_eq!(TWSRStatus::from_byte(raw), None);
            unknown += 1;
        }
    }
    assert_eq!(unknown, 243);
}

#[test]
fn await_hardware_looks_at_the_interrupt_flag_only() {
    assert!(!await_hardware(0x00));
    assert!(!await_hardware(0x7F));
    assert!(await_hardware(0x80));
    assert!(await_hardware(0xFF));
    assert!(!await_hardware(TWEN | TWSTA | TWEA | TWSTO));
}

#[test]
fn init_writes_status_then_divisor_then_enable() {
    let twi = TWI::new(100_000);
    assert_eq!(
        twi.init(),
        [
            Action::Write { address: 0x00B9, value: 0 },
            Action::Write { address: 0x00B8, value: 72 },
            Action::Write { address: 0x00BC, value: 0x04 },
        ]
    );
}

#[test]
fn start_condition_full_sequence() {
    let twi = TWI::new(100_000);
    let mut b = bench(2, &[0x08], &[]);
    let end = drive(&mut b, |at, loaded| twi.start_condition(at, loaded));
    assert_eq!(end, Action::Finish(Ok(())));
    assert_eq!(
        b.log,
        vec![
            Action::Write { address: TWCR, value: 0xA4 },
            Action::Read { address: TWCR },
            Action::Read { address: TWCR },
            Action::Read { address: TWCR },
            Action::Read { address: TWSR },
        ]
    );
}

#[test]
fn start_condition_succeeds_on_start_transmitted_only() {
    let twi = TWI::new(100_000);
    for (raw, status) in ALL_STATUSES {
        let mut b = bench(0, &[raw], &[]);
        let end = drive(&mut b, |at, loaded| twi.start_condition(at, loaded));
        if status == TWSRStatus::StartTransmitted {
            assert_eq!(end, Action::Finish(Ok(())));
        } else {
            assert_eq!(end, Action::Finish(Err(status)));
        }
    }
}

#[test]
fn start_condition_does_not_accept_a_repeated_start() {
    let twi = TWI::new(100_000);
    let mut b = bench(0, &[0x10], &[]);
    let end = drive(&mut b, |at, loaded| twi.start_condition(at, loaded));
    assert_eq!(end, Action::Finish(Err(TWSRStatus::RepeatedStartTransmitted)));
}

#[test]
fn undocumented_status_is_a_fault() {
    let twi = TWI::new(100_000);
    let mut b = bench(0, &[0x01], &[]);
    let end = drive(&mut b, |at, loaded| twi.start_condition(at, loaded));
    assert_eq!(end, Action::Fault(0x01));
    let mut b = bench(0, &[0x28, 0xFF], &[]);
    let end = drive(&mut b, |at, loaded| twi.send(&[1, 2, 3], at, loaded));
    assert_eq!(end, Action::Fault(0xFF));
    assert_eq!(writes_to(&b, TWDR), vec![1, 2]);
}

#[test]
fn stop_condition_always_succeeds_and_reads_no_status() {
    let twi = TWI::new(100_000);
    let mut b = bench(3, &[], &[]);
    let end = drive(&mut b, |at, loaded| twi.stop_condition(at, loaded));
    assert_eq!(end, Action::Finish(Ok(())));
    assert_eq!(writes_to(&b, TWCR), vec![0x94]);
    assert_eq!(reads_of(&b, TWCR), 4);
    assert_eq!(reads_of(&b, TWSR), 0);
}

#[test]
fn stop_condition_succeeds_whatever_was_read() {
    let twi = TWI::new(100_000);
    for raw in 0..=255u8 {
        let at = Cursor { index: 0, phase: Phase::Sampled };
        assert_eq!(twi.stop_condition(at, raw).action, Action::Finish(Ok(())));
    }
    for raw in 0x80..=255u8 {
        let at = Cursor { index: 0, phase: Phase::Polling };
        assert_eq!(twi.stop_condition(at, raw).action, Action::Finish(Ok(())));
    }
}

#[test]
fn send_header_payload_for_write() {
    let twi = TWI::new(100_000);
    let mut b = bench(1, &[0x18], &[]);
    let end = drive(&mut b, |at, loaded| twi.send_header(0x50, Direction::Write, at, loaded));
    assert_eq!(end, Action::Finish(Ok(())));
    assert_eq!(writes_to(&b, TWDR), vec![0xA0]);
    assert_eq!(writes_to(&b, TWCR), vec![0x84]);
}

#[test]
fn send_header_payload_for_read() {
    let twi = TWI::new(100_000);
    let mut b = bench(1, &[0x40], &[]);
    let end = drive(&mut b, |at, loaded| twi.send_header(0x50, Direction::Read, at, loaded));
    assert_eq!(end, Action::Finish(Ok(())));
    assert_eq!(writes_to(&b, TWDR), vec![0xA1]);
    assert_eq!(
        b.log,
        vec![
            Action::Write { address: TWDR, value: 0xA1 },
            Action::Write { address: TWCR, value: 0x84 },
            Action::Read { address: TWCR },
            Action::Read { address: TWCR },
            Action::Read { address: TWSR },
        ]
    );
}

#[test]
fn send_header_payload_for_every_seven_bit_address() {
    let twi = TWI::new(100_000);
    for address in 0..128u8 {
        let write = twi.send_header(address, Direction::Write, Cursor::start(), 0);
        assert_eq!(write.action, Action::Write { address: TWDR, value: address * 2 });
        let read = twi.send_header(address, Direction::Read, Cursor::start(), 0);
        assert_eq!(read.action, Action::Write { address: TWDR, value: address * 2 + 1 });
    }
}

#[test]
fn send_header_drops_the_eighth_address_bit() {
    let twi = TWI::new(100_000);
    let step = twi.send_header(0xD0, Direction::Read, Cursor::start(), 0);
    assert_eq!(step.action, Action::Write { address: TWDR, value: 0xA1 });
}

#[test]
fn send_header_wants_the_ack_of_its_own_direction() {
    let twi = TWI::new(100_000);
    for (raw, status) in ALL_STATUSES {
        for direction in [Direction::Read, Direction::Write] {
            let mut b = bench(0, &[raw], &[]);
            let end = drive(&mut b, |at, loaded| twi.send_header(0x21, direction, at, loaded));
            let wanted = match direction {
                Direction::Read => TWSRStatus::ReadHeaderTransmittedAckReceived,
                Direction::Write => TWSRStatus::WriteHeaderTransmittedAckReceived,
            };
            if status == wanted {
                assert_eq!(end, Action::Finish(Ok(())));
            } else {
                assert_eq!(end, Action::Finish(Err(status)));
            }
        }
    }
}

#[test]
fn send_all_bytes_acknowledged() {
    let twi = TWI::new(100_000);
    let mut b = bench(1, &[0x28, 0x28, 0x28], &[]);
    let end = drive(&mut b, |at, loaded| twi.send(&[0x11, 0x22, 0x33], at, loaded));
    assert_eq!(end, Action::Finish(Ok(())));
    assert_eq!(writes_to(&b, TWDR), vec![0x11, 0x22, 0x33]);
    assert_eq!(writes_to(&b, TWCR), vec![0x84, 0x84, 0x84]);
    assert_eq!(reads_of(&b, TWSR), 3);
    assert_eq!(
        b.log[..5],
        [
            Action::Write { address: TWDR, value: 0x11 },
            Action::Write { address: TWCR, value: 0x84 },
            Action::Read { address: TWCR },
            Action::Read { address: TWCR },
            Action::Read { address: TWSR },
        ]
    );
}

#[test]
fn send_stops_at_the_first_failing_byte() {
    let twi = TWI::new(100_000);
    let mut b = bench(0, &[0x28, 0x00, 0x28], &[]);
    let end = drive(&mut b, |at, loaded| twi.send(&[0x11, 0x22, 0x33], at, loaded));
    assert_eq!(end, Action::Finish(Err(TWSRStatus::BusError)));
    assert_eq!(writes_to(&b, TWDR), vec![0x11, 0x22]);
    assert_eq!(reads_of(&b, TWSR), 2);
    assert_eq!(b.status, vec![0x28]);
}

#[test]
fn send_reports_a_nack() {
    let twi = TWI::new(100_000);
    let mut b = bench(0, &[0x30], &[]);
    let end = drive(&mut b, |at, loaded| twi.send(&[0x11, 0x22], at, loaded));
    assert_eq!(end, Action::Finish(Err(TWSRStatus::DataTransmittedNackReceived)));
    assert_eq!(writes_to(&b, TWDR), vec![0x11]);
}

#[test]
fn send_of_nothing_touches_no_register() {
    let twi = TWI::new(100_000);
    let mut b = bench(0, &[], &[]);
    let end = drive(&mut b, |at, loaded| twi.send(&[], at, loaded));
    assert_eq!(end, Action::Finish(Ok(())));
    assert!(b.log.is_empty());
}

#[test]
fn read_with_ack_fills_every_slot() {
    let twi = TWI::new(100_000);
    let mut b = bench(1, &[0x50, 0x50], &[0xDE, 0xAD]);
    let mut buffer = [0u8; 2];
    let end = drive(&mut b, |at, loaded| twi.read(&mut buffer, true, at, loaded));
    assert_eq!(end, Action::Finish(Ok(())));
    assert_eq!(buffer, [0xDE, 0xAD]);
    assert_eq!(writes_to(&b, TWCR), vec![0xC4, 0xC4]);
    assert_eq!(
        b.log[..5],
        [
            Action::Write { address: TWCR, value: 0xC4 },
            Action::Read { address: TWCR },
            Action::Read { address: TWCR },
            Action::Read { address: TWSR },
            Action::Read { address: TWDR },
        ]
    );
}

#[test]
fn read_without_ack_wants_nack_for_every_slot() {
    let twi = TWI::new(100_000);
    let mut b = bench(0, &[0x58, 0x58], &[0x01, 0x02]);
    let mut buffer = [0u8; 2];
    let end = drive(&mut b, |at, loaded| twi.read(&mut buffer, false, at, loaded));
    assert_eq!(end, Action::Finish(Ok(())));
    assert_eq!(buffer, [0x01, 0x02]);
    assert_eq!(writes_to(&b, TWCR), vec![0x84, 0x84]);
}

#[test]
fn read_without_ack_refuses_an_ack_status() {
    let twi = TWI::new(100_000);
    let mut b = bench(0, &[0x50], &[0x01]);
    let mut buffer = [0x77u8; 1];
    let end = drive(&mut b, |at, loaded| twi.read(&mut buffer, false, at, loaded));
    assert_eq!(end, Action::Finish(Err(TWSRStatus::DataReceivedAckTransmitted)));
    assert_eq!(buffer, [0x77]);
    assert_eq!(reads_of(&b, TWDR), 0);
}

#[test]
fn read_stops_at_the_first_slot_with_a_nack() {
    let twi = TWI::new(100_000);
    let mut b = bench(0, &[0x58, 0x50], &[0xDE, 0xAD]);
    let mut buffer = [0x55u8, 0x66];
    let end = drive(&mut b, |at, loaded| twi.read(&mut buffer, true, at, loaded));
    assert_eq!(end, Action::Finish(Err(TWSRStatus::DataReceivedNackTransmitted)));
    assert_eq!(buffer, [0x55, 0x66]);
    assert_eq!(writes_to(&b, TWCR), vec![0xC4]);
    assert_eq!(reads_of(&b, TWDR), 0);
}

#[test]
fn read_leaves_the_slots_after_a_failure_untouched() {
    let twi = TWI::new(100_000);
    let mut b = bench(0, &[0x50, 0x58], &[0xDE, 0xAD]);
    let mut buffer = [0x55u8, 0x66];
    let end = drive(&mut b, |at, loaded| twi.read(&mut buffer, true, at, loaded));
    assert_eq!(end, Action::Finish(Err(TWSRStatus::DataReceivedNackTransmitted)));
    assert_eq!(buffer, [0xDE, 0x66]);
    assert_eq!(reads_of(&b, TWDR), 1);
}

#[test]
fn read_into_no_slots_touches_no_register() {
    let twi = TWI::new(100_000);
    let mut b = bench(0, &[], &[]);
    let mut buffer: [u8; 0] = [];
    let end = drive(&mut b, |at, loaded| twi.read(&mut buffer, true, at, loaded));
    assert_eq!(end, Action::Finish(Ok(())));
    assert!(b.log.is_empty());
}

#[test]
fn cycle_polls_until_the_flag_shows() {
    let cycle = Cycle {
        outgoing: None,
        control: 0x84,
        expected: Some(TWSRStatus::StartTransmitted),
        fetch: false,
    };
    assert_eq!(
        cycle.advance(Phase::Polling, 0x04),
        Turn::Act { action: Action::Read { address: TWCR }, phase: Phase::Polling }
    );
    assert_eq!(
        cycle.advance(Phase::Polling, 0x84),
        Turn::Act { action: Action::Read { address: TWSR }, phase: Phase::Sampled }
    );
    assert_eq!(cycle.advance(Phase::Sampled, 0x08), Turn::Complete);
}

#[test]
fn whole_write_transaction() {
    let twi = TWI::new(400_000);
    let mut b = bench(1, &[0x08, 0x18, 0x28, 0x28], &[]);
    assert_eq!(
        drive(&mut b, |at, loaded| twi.start_condition(at, loaded)),
        Action::Finish(Ok(()))
    );
    assert_eq!(
        drive(&mut b, |at, loaded| twi.send_header(0x3C, Direction::Write, at, loaded)),
        Action::Finish(Ok(()))
    );
    assert_eq!(drive(&mut b, |at, loaded| twi.send(&[0xAE, 0xAF], at, loaded)), Action::Finish(Ok(())));
    assert_eq!(drive(&mut b, |at, loaded| twi.stop_condition(at, loaded)), Action::Finish(Ok(())));
    assert_eq!(writes_to(&b, TWDR), vec![0x78, 0xAE, 0xAF]);
    assert_eq!(writes_to(&b, TWCR), vec![0xA4, 0x84, 0x84, 0x84, 0x94]);
    assert!(b.status.is_empty());
}

#[test]
fn send_writes_a_prefix_whatever_the_second_status_is() {
    let twi = TWI::new(100_000);
    for raw in 0..=255u8 {
        let mut b = bench(2, &[0x28, raw, 0x28], &[]);
        let end = drive(&mut b, |at, loaded| twi.send(&[7, 8, 9], at, loaded));
        if raw == 0x28 {
            assert_eq!(end, Action::Finish(Ok(())));
            assert_eq!(writes_to(&b, TWDR), vec![7, 8, 9]);
        } else {
            match TWSRStatus::from_byte(raw) {
                Some(status) => assert_eq!(end, Action::Finish(Err(status))),
                None => assert_eq!(end, Action::Fault(raw)),
            }
            assert_eq!(writes_to(&b, TWDR), vec![7, 8]);
        }
    }
}

#[test]
fn read_keeps_the_slots_from_the_refused_one_on() {
    let twi = TWI::new(100_000);
    for raw in 0..=255u8 {
        let mut b = bench(1, &[0x58, raw, 0x58], &[0xA1, 0xA2, 0xA3]);
        let mut buffer = [1u8, 2, 3];
        let end = drive(&mut b, |at, loaded| twi.read(&mut buffer, false, at, loaded));
        if raw == 0x58 {
            assert_eq!(end, Action::Finish(Ok(())));
            assert_eq!(buffer, [0xA1, 0xA2, 0xA3]);
        } else {
            match TWSRStatus::from_byte(raw) {
                Some(status) => assert_eq!(end, Action::Finish(Err(status))),
                None => assert_eq!(end, Action::Fault(raw)),
            }
            assert_eq!(buffer, [0xA1, 2, 3]);
            assert_eq!(reads_of(&b, TWDR), 1);
        }
    }
}

#[test]
fn a_step_after_the_end_is_success_without_an_access() {
    let twi = TWI::new(100_000);
    let past = Cursor { index: 3, phase: Phase::Begin };
    assert_eq!(twi.send(&[1, 2, 3], past, 0).action, Action::Finish(Ok(())));
    let mut buffer = [9u8; 2];
    let past = Cursor { index: 2, phase: Phase::Fetched };
    assert_eq!(twi.read(&mut buffer, true, past, 0x44).action, Action::Finish(Ok(())));
    assert_eq!(buffer, [9, 9]);
}
