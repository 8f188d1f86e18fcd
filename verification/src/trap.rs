//! User-side trap handling: classifying delivered interrupt records and
//! routing completion signals into the user reactor.
//!
//! The kernel delivers interrupts to the user runtime as fixed-size records
//! of cause and message.  This core reads the message only when the cause
//! marks a software notification, and further classifies it with the
//! half-range test of the signal protocol: a word above `usize::MAX / 2`
//! wakes the task it names, anything else routes to ordinary handling.
//! Reading the records out of the trap buffer, acknowledging the interrupt
//! controller and the hardware handlers for external and timer interrupts
//! stay with the surrounding runtime.

use vstd::prelude::*;

verus! {

use crate::reactor::{Reactor, ReactorError, TaskState, spec_wake};
use crate::signal::spec_decode;
use crate::task_id::TaskId;
use crate::user_executor::spec_deliver;

/// One delivered interrupt, as the kernel writes it into the trap buffer.
#[derive(Clone, Copy, Debug, PartialEq, Eq, Structural)]
pub struct UserTrapRecord {
    pub cause: usize,
    pub message: usize,
}

/// What a trap record means.
#[derive(Clone, Copy, Debug, PartialEq, Eq, Structural)]
pub enum TrapEvent {
    /// A software notification from process `pid`; `msg` may be a
    /// completion signal or an ordinary message.
    Soft { pid: usize, msg: usize },
    /// An external interrupt: `irq` names the line to handle and complete.
    External { irq: u16 },
    /// A timer interrupt with its time in microseconds.
    Timer { time_us: usize },
    /// A cause this runtime does not handle.
    Unknown,
}

/// How one record classifies: a cause whose low four bits are clear is a
/// software notification carrying the sender's pid in the remaining bits;
/// otherwise the cause names the external-interrupt or timer trap.
pub open spec fn spec_classify(record: UserTrapRecord) -> TrapEvent {
    if record.cause % 16 == 0 {
        TrapEvent::Soft { pid: record.cause / 16, msg: record.message }
    } else if record.cause == 8 {
        TrapEvent::External { irq: (record.message % 0x10000) as u16 }
    } else if record.cause == 4 {
        TrapEvent::Timer { time_us: record.message }
    } else {
        TrapEvent::Unknown
    }
}

/// Classifies one delivered record.
pub fn classify_record(record: UserTrapRecord) -> (e: TrapEvent)
    ensures
        e == spec_classify(record),
{
    if record.cause % 16 == 0 {
        TrapEvent::Soft { pid: record.cause / 16, msg: record.message }
    } else if record.cause == 8 {
        TrapEvent::External { irq: (record.message % 0x10000) as u16 }
    } else if record.cause == 4 {
        TrapEvent::Timer { time_us: record.message }
    } else {
        TrapEvent::Unknown
    }
}

/// Handles one software notification from process `pid`.  A message above
/// half the range is a completion signal: the word is classified against
/// the wake transition first, since it crosses from the other address
/// space, and only a legal wake reaches the reactor; a broken one (an
/// unknown id, or a second wake — fatal protocol violations) is reported.
/// Anything else is an ordinary message, `Ok(None)`, left to the
/// surrounding runtime.
pub fn soft_intr_handler(pid: usize, msg: usize, reactor: &mut Reactor) -> (r: Result<
    Option<TaskId>,
    ReactorError,
>)
    ensures
        spec_decode(msg) is None ==> r == Ok::<Option<TaskId>, ReactorError>(None)
            && final(reactor)@ == old(reactor)@,
        spec_decode(msg) matches Some(id) ==> match spec_wake(old(reactor)@, id) {
            Ok(m) => r == Ok::<Option<TaskId>, ReactorError>(Some(TaskId { value: id }))
                && final(reactor)@ == m,
            Err(e) => r == Err::<Option<TaskId>, ReactorError>(e)
                && final(reactor)@ == old(reactor)@,
        },
{
    match crate::signal::decode_message(msg) {
        Some(id) => {
            let task_id = TaskId { value: id };
            match reactor.get_task(task_id) {
                None => Err(ReactorError::UnknownTask),
                Some(TaskState::NotReady) => {
                    reactor.wake(task_id);
                    Ok(Some(task_id))
                },
                Some(_) => Err(ReactorError::AlreadyWoken),
            }
        },
        None => Ok(None),
    }
}

/// What a batch of records leaves in the reactor: each software
/// notification's message is consumed in order, exactly as the executor
/// consumes inbox words; other records do not touch the reactor.
pub open spec fn spec_process_records(records: Seq<UserTrapRecord>, m: Map<
    usize,
    crate::reactor::TaskState,
>) -> Map<usize, crate::reactor::TaskState>
    decreases records.len(),
{
    if records.len() == 0 {
        m
    } else {
        let m1 = match spec_classify(records[0]) {
            TrapEvent::Soft { pid, msg } => spec_deliver(m, msg),
            _ => m,
        };
        spec_process_records(records.subrange(1, records.len() as int), m1)
    }
}

/// Handles a batch of delivered trap records, in delivery order: each
/// software notification is consumed here, waking the task its completion
/// signal names, and every record's classification is handed back so the
/// surrounding runtime can drive its external-interrupt and timer handlers
/// and acknowledge the interrupt controller.
///
/// A completion word that is no legal wake is discarded here: that is the
/// ignore-signal path for a completion nobody awaits, as a `select` leaves
/// behind.  A runtime that must treat a broken wake of a live task as the
/// fatal violation it is handles each word itself through
/// `soft_intr_handler`, which reports the violation instead.
pub fn user_trap_handler(records: &Vec<UserTrapRecord>, reactor: &mut Reactor) -> (events: Vec<
    TrapEvent,
>)
    ensures
        final(reactor)@ == spec_process_records(records@, old(reactor)@),
        events@.len() == records@.len(),
        forall|i: int| 0 <= i < records@.len() ==> events@[i] == spec_classify(records@[i]),
{
    let mut events: Vec<TrapEvent> = Vec::new();
    let mut i: usize = 0;
    proof {
        assert(records@.subrange(0, records@.len() as int) =~= records@);
    }
    while i < records.len()
        invariant
            i <= records@.len(),
            events@.len() == i,
            forall|j: int| 0 <= j < i ==> events@[j] == spec_classify(records@[j]),
            spec_process_records(records@, old(reactor)@) == spec_process_records(
                records@.subrange(i as int, records@.len() as int),
                reactor@,
            ),
        decreases records@.len() - i,
    {
        let ghost suffix = records@.subrange(i as int, records@.len() as int);
        let record = records[i];
        let event = classify_record(record);
        match event {
            TrapEvent::Soft { pid, msg } => {
                crate::user_executor::deliver(reactor, msg);
            },
            _ => {},
        }
        events.push(event);
        proof {
            assert(suffix[0] == records@[i as int]);
            assert(suffix.subrange(1, suffix.len() as int) =~= records@.subrange(
                i + 1,
                records@.len() as int,
            ));
        }
        i = i + 1;
    }
    events
}

/// The per-hart interrupt-controller context for a privilege mode: three
/// contexts per hart, machine, supervisor and user in that order.
pub fn get_context(hart_id: usize, mode: char) -> (ctx: usize)
    requires
        mode == 'M' || mode == 'S' || mode == 'U',
        hart_id <= (usize::MAX - 2) / 3,
    ensures
        mode == 'M' ==> ctx == hart_id * 3,
        mode == 'S' ==> ctx == hart_id * 3 + 1,
        mode == 'U' ==> ctx == hart_id * 3 + 2,
{
    let offset: usize = if mode == 'M' {
        0
    } else if mode == 'S' {
        1
    } else {
        2
    };
    hart_id * 3 + offset
}

} // verus!
