//! What an operation does over a whole run, whatever the hardware answers.
//!
//! A run is the sequence of accesses that an operation asks for when the
//! caller starts at some cursor and comes back, step after step, with the
//! bytes of a given sequence. The laws hold for every such sequence: they
//! rest on nothing that the hardware does. This module has the runs of the
//! operations that are one bus cycle; `send` and `read` have modules of
//! their own.

use vstd::prelude::*;

use crate::hardware_atmega328p::{Cycle, TWSRStatus, TWCR, TWDR, TWINT, TWSR};
use crate::step::{Action, Cursor, Phase};

verus! {

/// The accesses that an operation of one cycle asks for from the cursor
/// `at`, when step `i` is handed `bytes[i]`. `start_condition`,
/// `stop_condition` and `send_header` are such operations. The run ends
/// with the operation, or when the bytes run out.
pub open spec fn single_run(cycle: Cycle, at: Cursor, bytes: Seq<u8>) -> Seq<Action>
    decreases bytes.len(),
{
    if bytes.len() == 0 {
        Seq::empty()
    } else {
        let step = cycle.alone(at, bytes[0]);
        if step.action is Finish || step.action is Fault {
            seq![step.action]
        } else {
            seq![step.action] + single_run(cycle, step.next, bytes.drop_first())
        }
    }
}

/// `count` reads of the control register.
pub open spec fn polls(count: nat) -> Seq<Action> {
    Seq::new(count, |i: int| Action::Read { address: TWCR })
}

/// The accesses with which a cycle begins: the outgoing byte, if there is
/// one, goes to the data register; then the command goes to the control
/// register, and the control register is read.
pub open spec fn opening(cycle: Cycle) -> Seq<Action> {
    let command = seq![
        Action::Write { address: TWCR, value: cycle.control },
        Action::Read { address: TWCR },
    ];
    match cycle.outgoing {
        Some(byte) => seq![Action::Write { address: TWDR, value: byte }] + command,
        None => command,
    }
}

/// How an operation of one cycle that receives no byte ends on the value
/// `status` of the status register: in success on the code of the expected
/// status, in failure with the status on the code of another, and in a
/// fault on a value that is no code.
pub open spec fn judged(cycle: Cycle, status: u8) -> Action {
    match TWSRStatus::decode(status) {
        None => Action::Fault(status),
        Some(found) => if Some(found) == cycle.expected {
            Action::Finish(Ok(()))
        } else {
            Action::Finish(Err(found))
        },
    }
}

/// The last access of a run that is one access longer.
pub proof fn last_of_one_more(first: Action, rest: Seq<Action>)
    ensures
        rest.len() > 0 ==> (seq![first] + rest).last() == rest.last(),
        rest.len() == 0 ==> (seq![first] + rest).last() == first,
{
}

/// The busy wait: for every value of the control register without the
/// interrupt flag the operation reads the register once more and does
/// nothing else. On the first value with the flag, a cycle that expects a
/// status reads the status register and goes on with what it finds there;
/// a cycle that expects none ends in success.
pub proof fn single_run_waits_for_the_flag(
    cycle: Cycle,
    at: Cursor,
    idle: Seq<u8>,
    ready: u8,
    tail: Seq<u8>,
)
    requires
        at.phase == Phase::Polling,
        forall|i: int| 0 <= i < idle.len() ==> idle[i] < TWINT,
        ready >= TWINT,
    ensures
        single_run(cycle, at, idle + seq![ready] + tail) == if cycle.expected is Some {
            polls(idle.len()) + seq![Action::Read { address: TWSR }] + single_run(
                cycle,
                Cursor { index: at.index, phase: Phase::Sampled },
                tail,
            )
        } else {
            polls(idle.len()) + seq![Action::Finish(Ok(()))]
        },
    decreases idle.len(),
{
    let bytes = idle + seq![ready] + tail;
    let run = single_run(cycle, at, bytes);
    let sampled = Cursor { index: at.index, phase: Phase::Sampled };
    if idle.len() == 0 {
        assert(bytes[0] == ready);
        assert(bytes.drop_first() =~= tail);
        assert(polls(0) =~= Seq::<Action>::empty());
        if cycle.expected is Some {
            assert(run =~= polls(0) + seq![Action::Read { address: TWSR }] + single_run(
                cycle,
                sampled,
                tail,
            ));
        } else {
            assert(run =~= polls(0) + seq![Action::Finish(Ok(()))]);
        }
    } else {
        assert(bytes[0] == idle[0]);
        assert(bytes.drop_first() =~= idle.drop_first() + seq![ready] + tail);
        single_run_waits_for_the_flag(cycle, at, idle.drop_first(), ready, tail);
        let shorter = (idle.len() - 1) as nat;
        assert(polls(idle.len()) =~= seq![Action::Read { address: TWCR }] + polls(shorter));
        if cycle.expected is Some {
            assert(run =~= polls(idle.len()) + seq![Action::Read { address: TWSR }] + single_run(
                cycle,
                sampled,
                tail,
            ));
        } else {
            assert(run =~= polls(idle.len()) + seq![Action::Finish(Ok(()))]);
        }
    }
}

/// An operation of one cycle from its beginning: it opens, and then waits
/// for the interrupt flag. The bytes that the opening steps are handed,
/// `lead`, change nothing: there is one for each access of the opening.
pub proof fn single_run_opens_then_waits(cycle: Cycle, at: Cursor, lead: Seq<u8>, wait: Seq<u8>)
    requires
        at.phase == Phase::Begin,
        lead.len() == opening(cycle).len(),
        wait.len() > 0,
    ensures
        single_run(cycle, at, lead + wait) == opening(cycle) + single_run(
            cycle,
            Cursor { index: at.index, phase: Phase::Polling },
            wait,
        ),
{
    let bytes = lead + wait;
    let polling = Cursor { index: at.index, phase: Phase::Polling };
    let commanded = Cursor { index: at.index, phase: Phase::Commanded };
    let loaded = Cursor { index: at.index, phase: Phase::Loaded };
    let waited = single_run(cycle, polling, wait);
    let from_commanded = single_run(cycle, commanded, bytes.skip(lead.len() - 1));
    assert(from_commanded =~= seq![Action::Read { address: TWCR }] + waited) by {
        assert(bytes.skip(lead.len() - 1).drop_first() =~= wait);
    }
    let from_loaded = single_run(cycle, loaded, bytes.skip(lead.len() - 2));
    assert(from_loaded =~= seq![Action::Write { address: TWCR, value: cycle.control }]
        + from_commanded) by {
        assert(bytes.skip(lead.len() - 2).drop_first() =~= bytes.skip(lead.len() - 1));
    }
    let whole = single_run(cycle, at, bytes);
    match cycle.outgoing {
        Some(byte) => {
            assert(bytes.drop_first() =~= bytes.skip(lead.len() - 2));
            assert(whole =~= seq![Action::Write { address: TWDR, value: byte }] + from_loaded);
        },
        None => {
            assert(bytes.skip(lead.len() - 2) =~= bytes);
            assert(bytes.drop_first() =~= bytes.skip(lead.len() - 1));
            assert(whole =~= from_loaded);
        },
    }
    assert(whole =~= opening(cycle) + waited);
}

/// The whole run of an operation of one cycle that expects a status and
/// receives no byte, such as `start_condition` and `send_header`: it
/// opens, reads the control register once more for every value without
/// the interrupt flag, reads the status register on the first value with
/// the flag, and ends as the status says. It asks for no other access.
pub proof fn single_run_with_status(
    cycle: Cycle,
    lead: Seq<u8>,
    idle: Seq<u8>,
    ready: u8,
    status: u8,
    tail: Seq<u8>,
)
    requires
        cycle.expected is Some,
        !cycle.fetch,
        lead.len() == opening(cycle).len(),
        forall|i: int| 0 <= i < idle.len() ==> idle[i] < TWINT,
        ready >= TWINT,
    ensures
        single_run(cycle, Cursor::origin(), lead + idle + seq![ready, status] + tail) == opening(
            cycle,
        ) + polls(idle.len()) + seq![Action::Read { address: TWSR }, judged(cycle, status)],
{
    let answer = seq![status] + tail;
    let wait = idle + seq![ready] + answer;
    assert(lead + idle + seq![ready, status] + tail =~= lead + wait);
    single_run_opens_then_waits(cycle, Cursor::origin(), lead, wait);
    let polling = Cursor { index: 0, phase: Phase::Polling };
    single_run_waits_for_the_flag(cycle, polling, idle, ready, answer);
    let sampled = Cursor { index: 0, phase: Phase::Sampled };
    assert(answer[0] == status);
    assert(single_run(cycle, sampled, answer) =~= seq![judged(cycle, status)]);
    assert(opening(cycle) + (polls(idle.len()) + seq![Action::Read { address: TWSR }] + seq![
        judged(cycle, status),
    ]) =~= opening(cycle) + polls(idle.len()) + seq![
        Action::Read { address: TWSR },
        judged(cycle, status),
    ]);
}

/// The whole run of an operation of one cycle that expects no status,
/// such as `stop_condition`: it opens, reads the control register once
/// more for every value without the interrupt flag, and ends in success on
/// the first value with the flag. The status register is not read.
pub proof fn single_run_without_status(
    cycle: Cycle,
    lead: Seq<u8>,
    idle: Seq<u8>,
    ready: u8,
    tail: Seq<u8>,
)
    requires
        cycle.expected is None,
        lead.len() == opening(cycle).len(),
        forall|i: int| 0 <= i < idle.len() ==> idle[i] < TWINT,
        ready >= TWINT,
    ensures
        single_run(cycle, Cursor::origin(), lead + idle + seq![ready] + tail) == opening(cycle)
            + polls(idle.len()) + seq![Action::Finish(Ok(()))],
{
    let wait = idle + seq![ready] + tail;
    assert(lead + idle + seq![ready] + tail =~= lead + wait);
    single_run_opens_then_waits(cycle, Cursor::origin(), lead, wait);
    let polling = Cursor { index: 0, phase: Phase::Polling };
    single_run_waits_for_the_flag(cycle, polling, idle, ready, tail);
    assert(opening(cycle) + (polls(idle.len()) + seq![Action::Finish(Ok(()))]) =~= opening(cycle)
        + polls(idle.len()) + seq![Action::Finish(Ok(()))]);
}

} // verus!
