//! The runs of `send`: which bytes reach the data register, and when.

use vstd::prelude::*;

use crate::hardware_atmega328p::{TWSRStatus, TWCR, TWDR, TWI, TWINT, TWSR};
use crate::step::{Action, Cursor, Phase};
use crate::trace::{last_of_one_more, polls};

verus! {

/// The accesses that `send` on `data` asks for from the cursor `at`, when
/// step `i` is handed `bytes[i]`. The run ends with the operation, or when
/// the bytes run out.
pub open spec fn send_run(data: Seq<u8>, at: Cursor, bytes: Seq<u8>) -> Seq<Action>
    decreases bytes.len(),
{
    if bytes.len() == 0 {
        Seq::empty()
    } else {
        let step = TWI::send_step(data, at, bytes[0]);
        if step.action is Finish || step.action is Fault {
            seq![step.action]
        } else {
            seq![step.action] + send_run(data, step.next, bytes.drop_first())
        }
    }
}

/// The cursor at which a run of `send` stops: the one of the step that
/// ended the operation, or the one to go on with when the bytes ran out.
pub open spec fn send_end(data: Seq<u8>, at: Cursor, bytes: Seq<u8>) -> Cursor
    decreases bytes.len(),
{
    if bytes.len() == 0 {
        at
    } else {
        let step = TWI::send_step(data, at, bytes[0]);
        if step.action is Finish || step.action is Fault {
            at
        } else {
            send_end(data, step.next, bytes.drop_first())
        }
    }
}

/// The values that a sequence of accesses writes to the data register, in
/// order.
pub open spec fn data_writes(actions: Seq<Action>) -> Seq<u8>
    decreases actions.len(),
{
    if actions.len() == 0 {
        Seq::empty()
    } else {
        let rest = data_writes(actions.drop_first());
        match actions[0] {
            Action::Write { address, value } if address == TWDR => seq![value] + rest,
            _ => rest,
        }
    }
}

/// The number of bytes of the data that are on their way once the cursor
/// is `at`: those of the completed cycles, and that of the current cycle
/// unless it has only begun.
pub open spec fn sent_before(at: Cursor) -> int {
    if at.phase == Phase::Begin {
        at.index as int
    } else {
        at.index + 1
    }
}

/// What `send` goes on with once the status of the byte at `index` was
/// read as `status`: the next byte goes to the data register on the code
/// of the acknowledgement, or the operation ends in success if there is no
/// next byte; it ends in failure with the status on the code of another,
/// and in a fault on a value that is no code.
pub open spec fn send_verdict(data: Seq<u8>, index: int, status: u8) -> Action {
    match TWSRStatus::decode(status) {
        None => Action::Fault(status),
        Some(found) => if found != TWSRStatus::DataTransmittedAckReceived {
            Action::Finish(Err(found))
        } else if index + 1 < data.len() {
            Action::Write { address: TWDR, value: data[index + 1] }
        } else {
            Action::Finish(Ok(()))
        },
    }
}

proof fn data_writes_of_one_more(first: Action, rest: Seq<Action>)
    ensures
        data_writes(seq![first] + rest) == match first {
            Action::Write { address, value } if address == TWDR => seq![value] + data_writes(rest),
            _ => data_writes(rest),
        },
{
    let all = seq![first] + rest;
    assert(all.drop_first() =~= rest);
    assert(all[0] == first);
}

proof fn data_writes_of_one(only: Action)
    ensures
        data_writes(seq![only]) == match only {
            Action::Write { address, value } if address == TWDR => seq![value],
            _ => Seq::<u8>::empty(),
        },
{
    assert(seq![only] =~= seq![only] + Seq::<Action>::empty());
    data_writes_of_one_more(only, Seq::empty());
    assert(data_writes(Seq::<Action>::empty()) =~= Seq::<u8>::empty());
    assert(forall|v: u8| seq![v] + Seq::<u8>::empty() =~= seq![v]);
}

/// From any cursor, a run of `send` writes to the data register the bytes
/// that come next in the data, in order, and no others.
pub proof fn send_run_writes_what_follows(data: Seq<u8>, at: Cursor, bytes: Seq<u8>)
    requires
        data.len() <= usize::MAX,
    ensures
        ({
            let written = data_writes(send_run(data, at, bytes));
            &&& written.len() == 0 || sent_before(at) + written.len() <= data.len()
            &&& forall|k: int|
                0 <= k < written.len() ==> written[k] == data[sent_before(at) + k]
        }),
    decreases bytes.len(),
{
    if bytes.len() == 0 {
    } else {
        let step = TWI::send_step(data, at, bytes[0]);
        if step.action is Finish || step.action is Fault {
            data_writes_of_one(step.action);
        } else {
            let rest = send_run(data, step.next, bytes.drop_first());
            send_run_writes_what_follows(data, step.next, bytes.drop_first());
            data_writes_of_one_more(step.action, rest);
        }
    }
}

/// Whatever the hardware answers, the bytes that `send` writes to the data
/// register from the start of the operation are the first bytes of the
/// data, in order: none is skipped, repeated or written out of turn.
pub proof fn send_writes_a_prefix(data: Seq<u8>, bytes: Seq<u8>)
    requires
        data.len() <= usize::MAX,
    ensures
        data_writes(send_run(data, Cursor::origin(), bytes)).is_prefix_of(data),
{
    send_run_writes_what_follows(data, Cursor::origin(), bytes);
    let written = data_writes(send_run(data, Cursor::origin(), bytes));
    assert(written =~= data.subrange(0, written.len() as int));
}

/// A run of `send` that ends in success has written, from the cursor on,
/// every byte that was still to be sent.
pub proof fn send_run_success_is_complete(data: Seq<u8>, at: Cursor, bytes: Seq<u8>)
    requires
        data.len() <= usize::MAX,
        sent_before(at) <= data.len(),
        send_run(data, at, bytes).len() > 0,
        send_run(data, at, bytes).last() == Action::Finish(Ok(())),
    ensures
        data_writes(send_run(data, at, bytes)) == data.skip(sent_before(at)),
    decreases bytes.len(),
{
    let written = data_writes(send_run(data, at, bytes));
    send_run_writes_what_follows(data, at, bytes);
    let step = TWI::send_step(data, at, bytes[0]);
    if step.action is Finish || step.action is Fault {
        data_writes_of_one(step.action);
        assert(sent_before(at) == data.len());
    } else {
        let rest = send_run(data, step.next, bytes.drop_first());
        assert(rest.len() > 0) by {
            if rest.len() == 0 {
                assert(seq![step.action] + rest =~= seq![step.action]);
            }
        }
        assert((seq![step.action] + rest).last() == rest.last());
        send_run_success_is_complete(data, step.next, bytes.drop_first());
        data_writes_of_one_more(step.action, rest);
        assert(written.len() == data.len() - sent_before(at));
    }
    assert(written =~= data.skip(sent_before(at)));
}

/// If `send` succeeds, every byte of the data was written to the data
/// register, in order, and nothing else was.
pub proof fn send_success_writes_all(data: Seq<u8>, bytes: Seq<u8>)
    requires
        data.len() <= usize::MAX,
        send_run(data, Cursor::origin(), bytes).len() > 0,
        send_run(data, Cursor::origin(), bytes).last() == Action::Finish(Ok(())),
    ensures
        data_writes(send_run(data, Cursor::origin(), bytes)) == data,
{
    send_run_success_is_complete(data, Cursor::origin(), bytes);
    assert(data.skip(0) =~= data);
}

/// A run of `send` that ends in failure stops where the status of a byte
/// was read, and that byte is the last that the run wrote.
pub proof fn send_run_failure_point(data: Seq<u8>, at: Cursor, bytes: Seq<u8>, status: TWSRStatus)
    requires
        data.len() <= usize::MAX,
        sent_before(at) <= data.len(),
        send_run(data, at, bytes).len() > 0,
        send_run(data, at, bytes).last() == Action::Finish(Err(status)),
    ensures
        ({
            let end = send_end(data, at, bytes);
            &&& end.phase == Phase::Sampled
            &&& at.index <= end.index < data.len()
            &&& status != TWSRStatus::DataTransmittedAckReceived
            &&& data_writes(send_run(data, at, bytes)) == data.subrange(
                sent_before(at),
                end.index + 1,
            )
        }),
    decreases bytes.len(),
{
    let written = data_writes(send_run(data, at, bytes));
    let end = send_end(data, at, bytes);
    send_run_writes_what_follows(data, at, bytes);
    let step = TWI::send_step(data, at, bytes[0]);
    if step.action is Finish || step.action is Fault {
        data_writes_of_one(step.action);
        assert(seq![step.action].last() == step.action);
        TWI::send_cycle(data[at.index as int]).failure_is_the_status_read(
            at.phase,
            bytes[0],
            status,
        );
    } else {
        let rest = send_run(data, step.next, bytes.drop_first());
        last_of_one_more(step.action, rest);
        send_run_failure_point(data, step.next, bytes.drop_first(), status);
        data_writes_of_one_more(step.action, rest);
    }
    assert(written =~= data.subrange(sent_before(at), end.index + 1));
}

/// If `send` fails, the bytes up to the one whose status was refused were
/// written to the data register, in order, and none after it. The error
/// is a status other than the acknowledgement.
pub proof fn send_failure_stops_at_the_refused_byte(
    data: Seq<u8>,
    bytes: Seq<u8>,
    status: TWSRStatus,
)
    requires
        data.len() <= usize::MAX,
        send_run(data, Cursor::origin(), bytes).len() > 0,
        send_run(data, Cursor::origin(), bytes).last() == Action::Finish(Err(status)),
    ensures
        ({
            let end = send_end(data, Cursor::origin(), bytes);
            &&& end.index < data.len()
            &&& status != TWSRStatus::DataTransmittedAckReceived
            &&& data_writes(send_run(data, Cursor::origin(), bytes)) == data.take(end.index + 1)
        }),
{
    send_run_failure_point(data, Cursor::origin(), bytes, status);
}

/// The busy wait of `send`: for every value of the control register
/// without the interrupt flag the register is read once more, and on the
/// first value with the flag the status register is read.
pub proof fn send_run_waits_for_the_flag(
    data: Seq<u8>,
    at: Cursor,
    idle: Seq<u8>,
    ready: u8,
    tail: Seq<u8>,
)
    requires
        at.index < data.len(),
        at.phase == Phase::Polling,
        forall|i: int| 0 <= i < idle.len() ==> idle[i] < TWINT,
        ready >= TWINT,
    ensures
        send_run(data, at, idle + seq![ready] + tail) == polls(idle.len()) + seq![
            Action::Read { address: TWSR },
        ] + send_run(data, Cursor { index: at.index, phase: Phase::Sampled }, tail),
    decreases idle.len(),
{
    let bytes = idle + seq![ready] + tail;
    let run = send_run(data, at, bytes);
    let sampled = Cursor { index: at.index, phase: Phase::Sampled };
    let rest = seq![Action::Read { address: TWSR }] + send_run(data, sampled, tail);
    if idle.len() == 0 {
        assert(bytes[0] == ready);
        assert(bytes.drop_first() =~= tail);
        assert(polls(0) =~= Seq::<Action>::empty());
        assert(run =~= polls(0) + rest);
    } else {
        assert(bytes[0] == idle[0]);
        assert(bytes.drop_first() =~= idle.drop_first() + seq![ready] + tail);
        send_run_waits_for_the_flag(data, at, idle.drop_first(), ready, tail);
        let shorter = (idle.len() - 1) as nat;
        assert(polls(idle.len()) =~= seq![Action::Read { address: TWCR }] + polls(shorter));
        assert(run =~= polls(idle.len()) + rest);
    }
    assert(polls(idle.len()) + rest =~= polls(idle.len()) + seq![Action::Read { address: TWSR }]
        + send_run(data, sampled, tail));
}

/// `send` begins with the first byte: it goes to the data register. With
/// no data the operation ends in success at once, and no register is
/// accessed.
pub proof fn send_run_begins_with_the_first_byte(data: Seq<u8>, first: u8, tail: Seq<u8>)
    ensures
        send_run(data, Cursor::origin(), seq![first] + tail) == if data.len() == 0 {
            seq![Action::Finish(Ok(()))]
        } else {
            seq![Action::Write { address: TWDR, value: data[0] }] + send_run(
                data,
                Cursor { index: 0, phase: Phase::Loaded },
                tail,
            )
        },
{
    let bytes = seq![first] + tail;
    assert(bytes.drop_first() =~= tail);
}

/// The run of `send` for one byte, from the point where the byte is in the
/// data register: the command goes to the control register, the control
/// register is read until it shows the interrupt flag, and the status
/// register is read. On the acknowledgement the run goes on in the same
/// way for the next byte, which went to the data register; on anything
/// else, and after the last byte, it is over. The bytes that the two
/// opening steps are handed, `lead`, change nothing.
pub proof fn send_run_of_one_byte(
    data: Seq<u8>,
    index: usize,
    lead: Seq<u8>,
    idle: Seq<u8>,
    ready: u8,
    status: u8,
    tail: Seq<u8>,
)
    requires
        data.len() <= usize::MAX,
        index < data.len(),
        lead.len() == 2,
        forall|i: int| 0 <= i < idle.len() ==> idle[i] < TWINT,
        ready >= TWINT,
    ensures
        send_run(
            data,
            Cursor { index, phase: Phase::Loaded },
            lead + idle + seq![ready, status] + tail,
        ) == seq![
            Action::Write { address: TWCR, value: 0x84 },
            Action::Read { address: TWCR },
        ] + polls(idle.len()) + seq![
            Action::Read { address: TWSR },
            send_verdict(data, index as int, status),
        ] + if send_verdict(data, index as int, status) is Write {
            send_run(data, Cursor { index: (index + 1) as usize, phase: Phase::Loaded }, tail)
        } else {
            Seq::empty()
        },
{
    let loaded = Cursor { index, phase: Phase::Loaded };
    let commanded = Cursor { index, phase: Phase::Commanded };
    let polling = Cursor { index, phase: Phase::Polling };
    let sampled = Cursor { index, phase: Phase::Sampled };
    let answer = seq![status] + tail;
    let wait = idle + seq![ready] + answer;
    let bytes = lead + wait;
    assert(lead + idle + seq![ready, status] + tail =~= bytes);
    let verdict = send_verdict(data, index as int, status);
    let onward = if verdict is Write {
        send_run(data, Cursor { index: (index + 1) as usize, phase: Phase::Loaded }, tail)
    } else {
        Seq::empty()
    };
    assert(answer[0] == status);
    assert(answer.drop_first() =~= tail);
    assert(send_run(data, sampled, answer) =~= seq![verdict] + onward);
    send_run_waits_for_the_flag(data, polling, idle, ready, answer);
    let waited = send_run(data, polling, wait);
    assert(bytes.drop_first().drop_first() =~= wait);
    assert(send_run(data, commanded, bytes.drop_first()) =~= seq![Action::Read { address: TWCR }]
        + waited);
    let whole = send_run(data, loaded, bytes);
    assert(whole =~= seq![
        Action::Write { address: TWCR, value: 0x84 },
        Action::Read { address: TWCR },
    ] + waited);
    assert(whole =~= seq![
        Action::Write { address: TWCR, value: 0x84 },
        Action::Read { address: TWCR },
    ] + polls(idle.len()) + seq![Action::Read { address: TWSR }, verdict] + onward);
}

} // verus!
