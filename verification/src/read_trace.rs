//! The runs of `read`: which slots of the buffer are filled, and when.

use vstd::prelude::*;

use crate::hardware_atmega328p::{TWSRStatus, TWCR, TWDR, TWI, TWINT, TWSR};
use crate::step::{Action, Cursor, Phase};
use crate::trace::{judged, last_of_one_more, polls};

verus! {

/// The accesses that `read` into a buffer of `count` slots asks for from
/// the cursor `at`, when step `i` is handed `bytes[i]`.
pub open spec fn read_run(count: nat, end_with_nack: bool, at: Cursor, bytes: Seq<u8>) -> Seq<
    Action,
>
    decreases bytes.len(),
{
    if bytes.len() == 0 {
        Seq::empty()
    } else {
        let step = TWI::read_step(count, end_with_nack, at, bytes[0]);
        if step.action is Finish || step.action is Fault {
            seq![step.action]
        } else {
            seq![step.action] + read_run(count, end_with_nack, step.next, bytes.drop_first())
        }
    }
}

/// The cursor at which a run of `read` stops: the one of the step that
/// ended the operation, or the one to go on with when the bytes ran out.
pub open spec fn read_end(count: nat, end_with_nack: bool, at: Cursor, bytes: Seq<u8>) -> Cursor
    decreases bytes.len(),
{
    if bytes.len() == 0 {
        at
    } else {
        let step = TWI::read_step(count, end_with_nack, at, bytes[0]);
        if step.action is Finish || step.action is Fault {
            at
        } else {
            read_end(count, end_with_nack, step.next, bytes.drop_first())
        }
    }
}

/// The buffer after a run of `read`.
pub open spec fn read_buffer(data: Seq<u8>, end_with_nack: bool, at: Cursor, bytes: Seq<u8>) -> Seq<
    u8,
>
    decreases bytes.len(),
{
    if bytes.len() == 0 {
        data
    } else {
        let step = TWI::read_step(data.len(), end_with_nack, at, bytes[0]);
        let stored = TWI::read_store(data, at, bytes[0]);
        if step.action is Finish || step.action is Fault {
            stored
        } else {
            read_buffer(stored, end_with_nack, step.next, bytes.drop_first())
        }
    }
}

/// A run of `read` moves forward through the buffer and changes no slot but
/// those it has moved through: the slots before the cursor it starts from
/// and the slots after the cursor it stops at hold what they held, whatever
/// the hardware answers. The slot at the cursor it stops at has changed
/// only if the run stopped on having fetched that slot's byte.
pub proof fn read_run_keeps_other_slots(
    data: Seq<u8>,
    end_with_nack: bool,
    at: Cursor,
    bytes: Seq<u8>,
)
    requires
        data.len() <= usize::MAX,
    ensures
        ({
            let end = read_end(data.len(), end_with_nack, at, bytes);
            let after = read_buffer(data, end_with_nack, at, bytes);
            &&& at.index <= end.index
            &&& after.len() == data.len()
            &&& forall|j: int|
                0 <= j < data.len() && (j < at.index || j > end.index || (j == end.index
                    && end.phase != Phase::Fetched)) ==> after[j] == data[j]
        }),
    decreases bytes.len(),
{
    if bytes.len() > 0 {
        let step = TWI::read_step(data.len(), end_with_nack, at, bytes[0]);
        let stored = TWI::read_store(data, at, bytes[0]);
        if !(step.action is Finish || step.action is Fault) {
            read_run_keeps_other_slots(stored, end_with_nack, step.next, bytes.drop_first());
        }
    }
}

/// A run of `read` that ends in failure stops where the status of a slot
/// was read, and the error is a status other than the one that goes with
/// the flag.
pub proof fn read_run_failure_point(
    count: nat,
    end_with_nack: bool,
    at: Cursor,
    bytes: Seq<u8>,
    status: TWSRStatus,
)
    requires
        count <= usize::MAX,
        read_run(count, end_with_nack, at, bytes).len() > 0,
        read_run(count, end_with_nack, at, bytes).last() == Action::Finish(Err(status)),
    ensures
        ({
            let end = read_end(count, end_with_nack, at, bytes);
            &&& end.phase == Phase::Sampled
            &&& end.index < count
            &&& Some(status) != TWI::read_cycle(end_with_nack).expected
        }),
    decreases bytes.len(),
{
    let step = TWI::read_step(count, end_with_nack, at, bytes[0]);
    if step.action is Finish || step.action is Fault {
        assert(seq![step.action].last() == step.action);
        TWI::read_cycle(end_with_nack).failure_is_the_status_read(at.phase, bytes[0], status);
    } else {
        let rest = read_run(count, end_with_nack, step.next, bytes.drop_first());
        last_of_one_more(step.action, rest);
        read_run_failure_point(count, end_with_nack, step.next, bytes.drop_first(), status);
    }
}

/// If `read` fails, the slot whose status was refused and every slot after
/// it hold what they held before the operation: they were neither filled
/// nor cleared.
pub proof fn read_failure_leaves_the_rest(
    data: Seq<u8>,
    end_with_nack: bool,
    bytes: Seq<u8>,
    status: TWSRStatus,
)
    requires
        data.len() <= usize::MAX,
        read_run(data.len(), end_with_nack, Cursor::origin(), bytes).len() > 0,
        read_run(data.len(), end_with_nack, Cursor::origin(), bytes).last() == Action::Finish(
            Err(status),
        ),
    ensures
        ({
            let end = read_end(data.len(), end_with_nack, Cursor::origin(), bytes);
            let after = read_buffer(data, end_with_nack, Cursor::origin(), bytes);
            &&& end.index < data.len()
            &&& after.len() == data.len()
            &&& forall|j: int| end.index <= j < data.len() ==> after[j] == data[j]
        }),
{
    read_run_keeps_other_slots(data, end_with_nack, Cursor::origin(), bytes);
    read_run_failure_point(data.len(), end_with_nack, Cursor::origin(), bytes, status);
}

/// The busy wait of `read`: for every value of the control register
/// without the interrupt flag the register is read once more, and on the
/// first value with the flag the status register is read. The buffer is
/// not touched.
pub proof fn read_run_waits_for_the_flag(
    data: Seq<u8>,
    end_with_nack: bool,
    at: Cursor,
    idle: Seq<u8>,
    ready: u8,
    tail: Seq<u8>,
)
    requires
        at.index < data.len(),
        at.phase == Phase::Polling,
        forall|i: int| 0 <= i < idle.len() ==> idle[i] < TWINT,
        ready >= TWINT,
    ensures
        read_run(data.len(), end_with_nack, at, idle + seq![ready] + tail) == polls(idle.len())
            + seq![Action::Read { address: TWSR }] + read_run(
            data.len(),
            end_with_nack,
            Cursor { index: at.index, phase: Phase::Sampled },
            tail,
        ),
        read_buffer(data, end_with_nack, at, idle + seq![ready] + tail) == read_buffer(
            data,
            end_with_nack,
            Cursor { index: at.index, phase: Phase::Sampled },
            tail,
        ),
    decreases idle.len(),
{
    let bytes = idle + seq![ready] + tail;
    let run = read_run(data.len(), end_with_nack, at, bytes);
    let sampled = Cursor { index: at.index, phase: Phase::Sampled };
    let rest = seq![Action::Read { address: TWSR }] + read_run(
        data.len(),
        end_with_nack,
        sampled,
        tail,
    );
    if idle.len() == 0 {
        assert(bytes[0] == ready);
        assert(bytes.drop_first() =~= tail);
        assert(polls(0) =~= Seq::<Action>::empty());
        assert(run =~= polls(0) + rest);
    } else {
        assert(bytes[0] == idle[0]);
        assert(bytes.drop_first() =~= idle.drop_first() + seq![ready] + tail);
        read_run_waits_for_the_flag(data, end_with_nack, at, idle.drop_first(), ready, tail);
        let shorter = (idle.len() - 1) as nat;
        assert(polls(idle.len()) =~= seq![Action::Read { address: TWCR }] + polls(shorter));
        assert(run =~= polls(idle.len()) + rest);
    }
    assert(polls(idle.len()) + rest =~= polls(idle.len()) + seq![Action::Read { address: TWSR }]
        + read_run(data.len(), end_with_nack, sampled, tail));
}

/// `read` begins with the command for the first slot. With no slots the
/// operation ends in success at once, and no register is accessed.
pub proof fn read_run_begins_with_the_command(
    count: nat,
    end_with_nack: bool,
    first: u8,
    tail: Seq<u8>,
)
    ensures
        read_run(count, end_with_nack, Cursor::origin(), seq![first] + tail) == if count == 0 {
            seq![Action::Finish(Ok(()))]
        } else {
            seq![Action::Write { address: TWCR, value: TWI::read_cycle(end_with_nack).control }]
                + read_run(
                count,
                end_with_nack,
                Cursor { index: 0, phase: Phase::Commanded },
                tail,
            )
        },
{
    let bytes = seq![first] + tail;
    assert(bytes.drop_first() =~= tail);
}

/// The run of `read` for one slot whose status is refused, from the point
/// where the command is in the control register: the control register is
/// read until it shows the interrupt flag, the status register is read,
/// and the operation ends: in failure with the status, or in a fault on a
/// value that is no code. The data register is not read, and the buffer
/// holds what it held.
pub proof fn read_run_of_a_refused_slot(
    data: Seq<u8>,
    end_with_nack: bool,
    index: usize,
    lead: u8,
    idle: Seq<u8>,
    ready: u8,
    status: u8,
    tail: Seq<u8>,
)
    requires
        index < data.len(),
        forall|i: int| 0 <= i < idle.len() ==> idle[i] < TWINT,
        ready >= TWINT,
        TWSRStatus::decode(status) != TWI::read_cycle(end_with_nack).expected,
    ensures
        read_run(
            data.len(),
            end_with_nack,
            Cursor { index, phase: Phase::Commanded },
            seq![lead] + idle + seq![ready, status] + tail,
        ) == seq![Action::Read { address: TWCR }] + polls(idle.len()) + seq![
            Action::Read { address: TWSR },
            judged(TWI::read_cycle(end_with_nack), status),
        ],
        read_buffer(
            data,
            end_with_nack,
            Cursor { index, phase: Phase::Commanded },
            seq![lead] + idle + seq![ready, status] + tail,
        ) == data,
{
    let commanded = Cursor { index, phase: Phase::Commanded };
    let polling = Cursor { index, phase: Phase::Polling };
    let sampled = Cursor { index, phase: Phase::Sampled };
    let answer = seq![status] + tail;
    let wait = idle + seq![ready] + answer;
    let bytes = seq![lead] + wait;
    assert(seq![lead] + idle + seq![ready, status] + tail =~= bytes);
    let verdict = judged(TWI::read_cycle(end_with_nack), status);
    assert(answer[0] == status);
    assert(read_run(data.len(), end_with_nack, sampled, answer) =~= seq![verdict]);
    assert(read_buffer(data, end_with_nack, sampled, answer) == data);
    read_run_waits_for_the_flag(data, end_with_nack, polling, idle, ready, answer);
    assert(bytes.drop_first() =~= wait);
    let whole = read_run(data.len(), end_with_nack, commanded, bytes);
    assert(whole =~= seq![Action::Read { address: TWCR }] + polls(idle.len()) + seq![
        Action::Read { address: TWSR },
        verdict,
    ]);
}

/// The run of `read` for one slot whose status is the expected one, from
/// the point where the command is in the control register: the control
/// register is read until it shows the interrupt flag, the status register
/// is read, then the data register, and its value `fetched` is stored in
/// the slot. After the last slot the operation ends in success; else the
/// command for the next slot goes to the control register and the run goes
/// on in the same way.
pub proof fn read_run_of_a_filled_slot(
    data: Seq<u8>,
    end_with_nack: bool,
    index: usize,
    lead: u8,
    idle: Seq<u8>,
    ready: u8,
    status: u8,
    fetched: u8,
    tail: Seq<u8>,
)
    requires
        data.len() <= usize::MAX,
        index < data.len(),
        forall|i: int| 0 <= i < idle.len() ==> idle[i] < TWINT,
        ready >= TWINT,
        TWSRStatus::decode(status) == TWI::read_cycle(end_with_nack).expected,
    ensures
        ({
            let bytes = seq![lead] + idle + seq![ready, status, fetched] + tail;
            let from = Cursor { index, phase: Phase::Commanded };
            let onward = Cursor { index: (index + 1) as usize, phase: Phase::Commanded };
            let through = seq![Action::Read { address: TWCR }] + polls(idle.len()) + seq![
                Action::Read { address: TWSR },
                Action::Read { address: TWDR },
            ];
            let filled = data.update(index as int, fetched);
            &&& read_run(data.len(), end_with_nack, from, bytes) == if index + 1 < data.len() {
                through + seq![
                    Action::Write {
                        address: TWCR,
                        value: TWI::read_cycle(end_with_nack).control,
                    },
                ] + read_run(data.len(), end_with_nack, onward, tail)
            } else {
                through + seq![Action::Finish(Ok(()))]
            }
            &&& read_buffer(data, end_with_nack, from, bytes) == if index + 1 < data.len() {
                read_buffer(filled, end_with_nack, onward, tail)
            } else {
                filled
            }
        }),
{
    let commanded = Cursor { index, phase: Phase::Commanded };
    let polling = Cursor { index, phase: Phase::Polling };
    let sampled = Cursor { index, phase: Phase::Sampled };
    let stored = Cursor { index, phase: Phase::Fetched };
    let onward = Cursor { index: (index + 1) as usize, phase: Phase::Commanded };
    let count = data.len();
    let filled = data.update(index as int, fetched);
    let delivery = seq![fetched] + tail;
    let answer = seq![status] + delivery;
    let wait = idle + seq![ready] + answer;
    let bytes = seq![lead] + wait;
    assert(seq![lead] + idle + seq![ready, status, fetched] + tail =~= bytes);
    let command = Action::Write { address: TWCR, value: TWI::read_cycle(end_with_nack).control };
    let ending = if index + 1 < count {
        seq![command] + read_run(count, end_with_nack, onward, tail)
    } else {
        seq![Action::Finish(Ok(()))]
    };
    assert(delivery[0] == fetched);
    assert(delivery.drop_first() =~= tail);
    assert(read_run(count, end_with_nack, stored, delivery) =~= ending);
    assert(TWI::read_store(data, stored, fetched) == filled);
    assert(read_buffer(data, end_with_nack, stored, delivery) == if index + 1 < count {
        read_buffer(filled, end_with_nack, onward, tail)
    } else {
        filled
    });
    assert(answer[0] == status);
    assert(answer.drop_first() =~= delivery);
    assert(read_run(count, end_with_nack, sampled, answer) =~= seq![
        Action::Read { address: TWDR },
    ] + ending);
    assert(read_buffer(data, end_with_nack, sampled, answer) == read_buffer(
        data,
        end_with_nack,
        stored,
        delivery,
    ));
    read_run_waits_for_the_flag(data, end_with_nack, polling, idle, ready, answer);
    assert(bytes.drop_first() =~= wait);
    let through = seq![Action::Read { address: TWCR }] + polls(idle.len()) + seq![
        Action::Read { address: TWSR },
        Action::Read { address: TWDR },
    ];
    assert(read_run(count, end_with_nack, commanded, bytes) =~= through + ending);
    if index + 1 < count {
        assert(through + ending =~= through + seq![command] + read_run(
            count,
            end_with_nack,
            onward,
            tail,
        ));
    }
}

} // verus!
