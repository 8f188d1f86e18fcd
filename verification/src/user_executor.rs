//! User-side executor: composition primitives that drive user tasks to
//! completion on one logical thread.
//!
//! There is no blocking primitive: readiness only changes when the
//! interrupt handler runs on this same thread and wakes a task, so these
//! primitives busy-poll.  The two sides of the privilege boundary meet in
//! two queues of plain words: polls hand back the system calls to issue
//! (`issued`), and completion words the kernel has delivered wait in the
//! inbox until the handler consumes them between polls.
//!
//! The drive functions return `None` (or report failure) once the inbox has
//! run dry while a task is still pending: the running system would spin at
//! that point until the next interrupt, and an operation the kernel never
//! completes leaves it spinning indefinitely.

use vstd::prelude::*;

verus! {

use crate::Poll;
use crate::reactor::{Reactor, TaskState, spec_is_finish, spec_is_ready, spec_wake};
use crate::signal::spec_decode;
use crate::task_id::TaskId;
use crate::user_fs::SyscallRequest;
use crate::user_task::{UserTask, distinct_ids, lemma_user_poll_frames_others, spec_user_poll};

/// What one inbound word does to the reactor when the handler consumes it:
/// a completion signal wakes its task; a completion nobody awaits (see
/// `select`) is discarded; an ordinary word is not for this layer.
pub open spec fn spec_deliver(m: Map<usize, TaskState>, msg: usize) -> Map<usize, TaskState> {
    match spec_decode(msg) {
        Some(id) => match spec_wake(m, id) {
            Ok(m2) => m2,
            Err(_) => m,
        },
        None => m,
    }
}

/// Consuming a word never unregisters a task, and never makes or unmakes a
/// finished one: a wake only moves `NotReady` to `Ready`.
pub proof fn lemma_deliver_preserves_entries(m: Map<usize, TaskState>, msg: usize, id: usize)
    ensures
        spec_deliver(m, msg).contains_key(id) == m.contains_key(id),
        spec_is_finish(spec_deliver(m, msg), id) == spec_is_finish(m, id),
{
}

/// Consumes one inbound word, as the trap handler does between polls: a
/// legal wake is applied, anything else is discarded here (the trap path
/// reports the violation, see `trap::soft_intr_handler`).
pub(crate) fn deliver(reactor: &mut Reactor, msg: usize)
    ensures
        final(reactor)@ == spec_deliver(old(reactor)@, msg),
{
    match crate::signal::decode_message(msg) {
        Some(id) => {
            let task_id = TaskId { value: id };
            match reactor.get_task(task_id) {
                Some(TaskState::NotReady) => reactor.wake(task_id),
                _ => {},
            }
        },
        None => {},
    }
}

/// What `block_on` leaves behind: the result (`None` once the inbox ran dry
/// while the task was pending), the reactor map, the remaining inbox, and
/// the system calls issued along the way.  Each spin iteration polls the
/// task once and then consumes one inbound word.
pub open spec fn spec_block_on(t: UserTask, m: Map<usize, TaskState>, inbox: Seq<usize>) -> (
    Option<isize>,
    Map<usize, TaskState>,
    Seq<usize>,
    Seq<SyscallRequest>,
)
    decreases inbox.len(),
{
    let o = spec_user_poll(t, m);
    let issued: Seq<SyscallRequest> = if o.3 is Some {
        seq![o.3->0]
    } else {
        Seq::empty()
    };
    match o.2 {
        Poll::Ready(v) => (Some(v), o.1, inbox, issued),
        Poll::Pending => {
            if inbox.len() == 0 {
                (None, o.1, inbox, issued)
            } else {
                let m2 = spec_deliver(o.1, inbox[0]);
                let rec = spec_block_on(o.0, m2, inbox.subrange(1, inbox.len() as int));
                (rec.0, rec.1, rec.2, issued + rec.3)
            }
        },
    }
}

/// Spin-polls `task` to completion, consuming one word of `inbox` between
/// polls, exactly as `spec_block_on` lays it out.
///
/// On completion the result is the fixed success code 0, and the task's
/// reactor entry, if it has one, is `Finish`.  `None` reports that the
/// inbox ran dry while the task was still pending: the running system would
/// keep spinning here until the next interrupt.
pub fn block_on(
    task: UserTask,
    reactor: &mut Reactor,
    inbox: &mut Vec<usize>,
    issued: &mut Vec<SyscallRequest>,
) -> (r: Option<isize>)
    ensures
        ({
            let o = spec_block_on(task, old(reactor)@, old(inbox)@);
            &&& r == o.0
            &&& final(reactor)@ == o.1
            &&& final(inbox)@ == o.2
            &&& final(issued)@ == old(issued)@ + o.3
        }),
        r matches Some(v) ==> v == 0,
        r is Some && final(reactor)@.contains_key(task.id@) ==> spec_is_finish(
            final(reactor)@,
            task.id@,
        ),
        r is None ==> final(inbox)@.len() == 0,
    decreases old(inbox)@.len(),
{
    let ghost t0 = task;
    let ghost m0 = reactor@;
    let ghost inbox0 = inbox@;
    let mut task = task;
    let (p, request) = task.poll(reactor);
    match request {
        Some(q) => issued.push(q),
        None => {},
    }
    match p {
        Poll::Ready(v) => {
            proof {
                assert(issued@ =~= old(issued)@ + spec_block_on(t0, m0, inbox0).3);
            }
            Some(v)
        },
        Poll::Pending => {
            if inbox.len() == 0 {
                proof {
                    assert(issued@ =~= old(issued)@ + spec_block_on(t0, m0, inbox0).3);
                }
                None
            } else {
                let msg = inbox.remove(0);
                deliver(reactor, msg);
                let r = block_on(task, reactor, inbox, issued);
                proof {
                    assert(issued@ =~= old(issued)@ + spec_block_on(t0, m0, inbox0).3);
                }
                r
            }
        },
    }
}

/// One round of `select`: polls the tasks from the front and stops at the
/// first one that completes; the tasks polled pending advance their phase
/// in place.
pub open spec fn spec_select_round(tasks: Seq<UserTask>, m: Map<usize, TaskState>) -> (
    Option<isize>,
    Seq<UserTask>,
    Map<usize, TaskState>,
    Seq<SyscallRequest>,
)
    decreases tasks.len(),
{
    if tasks.len() == 0 {
        (None, tasks, m, Seq::empty())
    } else {
        let o = spec_user_poll(tasks[0], m);
        let issued: Seq<SyscallRequest> = if o.3 is Some {
            seq![o.3->0]
        } else {
            Seq::empty()
        };
        match o.2 {
            Poll::Ready(v) => (
                Some(v),
                seq![o.0] + tasks.subrange(1, tasks.len() as int),
                o.1,
                issued,
            ),
            Poll::Pending => {
                let rec = spec_select_round(tasks.subrange(1, tasks.len() as int), o.1);
                (rec.0, seq![o.0] + rec.1, rec.2, issued + rec.3)
            },
        }
    }
}

/// Polls each task once, in order, returning at the first completion, as
/// `spec_select_round` lays it out.  When the tasks carry distinct ids and
/// one of them is already woken past its first phase, the round is certain
/// to complete.
fn select_round(
    tasks: Vec<UserTask>,
    reactor: &mut Reactor,
    issued: &mut Vec<SyscallRequest>,
) -> (r: (Option<isize>, Vec<UserTask>))
    ensures
        ({
            let o = spec_select_round(tasks@, old(reactor)@);
            &&& r.0 == o.0
            &&& r.1@ == o.1
            &&& final(reactor)@ == o.2
            &&& final(issued)@ == old(issued)@ + o.3
        }),
        r.0 matches Some(v) ==> v == 0,
        distinct_ids(tasks@) && (exists|i: int|
            0 <= i < tasks@.len() && spec_is_ready(old(reactor)@, tasks@[i].id@)
                && !tasks@[i].future.spec_first()) ==> r.0 is Some,
    decreases tasks@.len(),
{
    let ghost m0 = reactor@;
    let mut ts = tasks;
    if ts.len() == 0 {
        proof {
            assert(issued@ =~= old(issued)@ + Seq::<SyscallRequest>::empty());
        }
        (None, ts)
    } else {
        let mut t = ts.remove(0);
        let (p, request) = t.poll(reactor);
        match request {
            Some(q) => issued.push(q),
            None => {},
        }
        match p {
            Poll::Ready(v) => {
                ts.insert(0, t);
                proof {
                    assert(ts@ =~= seq![t] + tasks@.subrange(1, tasks@.len() as int));
                    assert(issued@ =~= old(issued)@ + spec_select_round(tasks@, m0).3);
                }
                (Some(v), ts)
            },
            Poll::Pending => {
                proof {
                    if distinct_ids(tasks@) && (exists|i: int|
                        0 <= i < tasks@.len() && spec_is_ready(m0, tasks@[i].id@)
                            && !tasks@[i].future.spec_first()) {
                        let i = choose|i: int|
                            0 <= i < tasks@.len() && spec_is_ready(m0, tasks@[i].id@)
                                && !tasks@[i].future.spec_first();
                        assert(i != 0);
                        lemma_user_poll_frames_others(tasks@[0], m0, tasks@[i].id@);
                        assert(spec_is_ready(reactor@, ts@[i - 1].id@) && !ts@[i
                            - 1].future.spec_first());
                    }
                }
                let (res, mut rest) = select_round(ts, reactor, issued);
                rest.insert(0, t);
                proof {
                    let o = spec_select_round(tasks@, m0);
                    assert(rest@ =~= o.1);
                    assert(issued@ =~= old(issued)@ + o.3);
                }
                (res, rest)
            },
        }
    }
}

/// What `select` leaves behind: the winner's result (`None` once the inbox
/// ran dry with every task still pending), the reactor map, the remaining
/// inbox, and the system calls issued.  Each spin iteration is one round
/// over all tasks followed by one consumed word.
pub open spec fn spec_select(
    tasks: Seq<UserTask>,
    m: Map<usize, TaskState>,
    inbox: Seq<usize>,
) -> (Option<isize>, Map<usize, TaskState>, Seq<usize>, Seq<SyscallRequest>)
    decreases inbox.len(),
{
    let ro = spec_select_round(tasks, m);
    match ro.0 {
        Some(v) => (Some(v), ro.2, inbox, ro.3),
        None => {
            if inbox.len() == 0 {
                (None, ro.2, inbox, ro.3)
            } else {
                let m2 = spec_deliver(ro.2, inbox[0]);
                let rec = spec_select(ro.1, m2, inbox.subrange(1, inbox.len() as int));
                (rec.0, rec.1, rec.2, ro.3 + rec.3)
            }
        },
    }
}

/// Round-robin polls the tasks and returns the first result to complete,
/// exactly as `spec_select` lays it out: a round polls each task at most
/// once, in order, and stops at the first completion.  The non-winning
/// tasks are abandoned with no cancellation sent to the kernel, so the
/// kernel may still complete and signal an id nobody awaits (such a signal
/// is discarded on delivery).
///
/// When the tasks carry distinct ids and one of them is already woken past
/// its first phase at call time, `select` returns without consuming the
/// inbox at all: it never blocks on an already-complete task.  `None`
/// reports that the inbox ran dry with every task still pending.
pub fn select(
    tasks: Vec<UserTask>,
    reactor: &mut Reactor,
    inbox: &mut Vec<usize>,
    issued: &mut Vec<SyscallRequest>,
) -> (r: Option<isize>)
    ensures
        ({
            let o = spec_select(tasks@, old(reactor)@, old(inbox)@);
            &&& r == o.0
            &&& final(reactor)@ == o.1
            &&& final(inbox)@ == o.2
            &&& final(issued)@ == old(issued)@ + o.3
        }),
        r matches Some(v) ==> v == 0,
        r is None ==> final(inbox)@.len() == 0,
        distinct_ids(tasks@) && (exists|i: int|
            0 <= i < tasks@.len() && spec_is_ready(old(reactor)@, tasks@[i].id@)
                && !tasks@[i].future.spec_first()) ==> r is Some && final(inbox)@ == old(inbox)@,
    decreases old(inbox)@.len(),
{
    let ghost m0 = reactor@;
    let (res, ts) = select_round(tasks, reactor, issued);
    match res {
        Some(v) => Some(v),
        None => {
            if inbox.len() == 0 {
                None
            } else {
                let msg = inbox.remove(0);
                deliver(reactor, msg);
                let r = select(ts, reactor, inbox, issued);
                proof {
                    assert(issued@ =~= old(issued)@ + spec_select(tasks@, m0, old(inbox)@).3);
                }
                r
            }
        },
    }
}

/// Some task in the sequence carries this id.
pub open spec fn owns_id(tasks: Seq<UserTask>, id: usize) -> bool {
    exists|i: int| 0 <= i < tasks.len() && tasks[i].id@ == id
}

/// Every flag is set: every joined task has completed.
pub open spec fn all_true(s: Seq<bool>) -> bool {
    forall|i: int| 0 <= i < s.len() ==> s[i]
}

/// The bookkeeping `join` relies on: one flag per task; distinct ids; a
/// flagged task is `Finish` in the reactor and an unflagged one is not; and
/// an unflagged task past its first phase is registered.  Together these
/// say the flags track terminal states exactly.
pub open spec fn join_invariant(
    tasks: Seq<UserTask>,
    done: Seq<bool>,
    m: Map<usize, TaskState>,
) -> bool {
    &&& done.len() == tasks.len()
    &&& distinct_ids(tasks)
    &&& forall|i: int|
        0 <= i < tasks.len() ==> (done[i] ==> spec_is_finish(m, tasks[i].id@))
    &&& forall|i: int|
        0 <= i < tasks.len() ==> (!done[i] ==> !spec_is_finish(m, tasks[i].id@))
    &&& forall|i: int|
        0 <= i < tasks.len() ==> (!done[i] && !tasks[i].future.spec_first() ==> m.contains_key(
            tasks[i].id@,
        ))
}

/// One round of `join`: polls each task whose flag is not yet set, in
/// order, setting the flag of each one that completes.
pub open spec fn spec_join_round(
    tasks: Seq<UserTask>,
    done: Seq<bool>,
    m: Map<usize, TaskState>,
) -> (Seq<UserTask>, Seq<bool>, Map<usize, TaskState>, Seq<SyscallRequest>)
    decreases tasks.len(),
{
    if tasks.len() == 0 {
        (tasks, done, m, Seq::empty())
    } else if done[0] {
        let rec = spec_join_round(
            tasks.subrange(1, tasks.len() as int),
            done.subrange(1, done.len() as int),
            m,
        );
        (seq![tasks[0]] + rec.0, seq![true] + rec.1, rec.2, rec.3)
    } else {
        let o = spec_user_poll(tasks[0], m);
        let issued: Seq<SyscallRequest> = if o.3 is Some {
            seq![o.3->0]
        } else {
            Seq::empty()
        };
        let rec = spec_join_round(
            tasks.subrange(1, tasks.len() as int),
            done.subrange(1, done.len() as int),
            o.1,
        );
        (seq![o.0] + rec.0, seq![o.2 is Ready] + rec.1, rec.2, issued + rec.3)
    }
}

/// Polls each not-yet-done task once, as `spec_join_round` lays it out.
/// Under the join invariant the round preserves it, leaves every task's id
/// in place, never clears a flag, and touches no reactor entry outside the
/// tasks' own ids.
fn join_round(
    tasks: Vec<UserTask>,
    done: Vec<bool>,
    reactor: &mut Reactor,
    issued: &mut Vec<SyscallRequest>,
) -> (r: (Vec<UserTask>, Vec<bool>))
    requires
        done@.len() == tasks@.len(),
    ensures
        ({
            let o = spec_join_round(tasks@, done@, old(reactor)@);
            &&& r.0@ == o.0
            &&& r.1@ == o.1
            &&& final(reactor)@ == o.2
            &&& final(issued)@ == old(issued)@ + o.3
        }),
        r.0@.len() == tasks@.len() && r.1@.len() == done@.len(),
        forall|i: int| 0 <= i < tasks@.len() ==> r.0@[i].id@ == tasks@[i].id@,
        forall|i: int| 0 <= i < done@.len() && done@[i] ==> r.1@[i],
        forall|id: usize|
            !(#[trigger] owns_id(tasks@, id)) ==> final(reactor)@.contains_key(id) == old(
                reactor,
            )@.contains_key(id) && (old(reactor)@.contains_key(id) ==> final(reactor)@[id] == old(
                reactor,
            )@[id]),
        join_invariant(tasks@, done@, old(reactor)@) ==> join_invariant(
            r.0@,
            r.1@,
            final(reactor)@,
        ),
    decreases tasks@.len(),
{
    let ghost m0 = reactor@;
    let mut ts = tasks;
    let mut ds = done;
    if ts.len() == 0 {
        proof {
            assert(issued@ =~= old(issued)@ + Seq::<SyscallRequest>::empty());
        }
        (ts, ds)
    } else {
        let mut t = ts.remove(0);
        let d = ds.remove(0);
        let ghost tail_tasks = ts@;
        let ghost tail_done = ds@;
        if d {
            let (mut rts, mut rds) = join_round(ts, ds, reactor, issued);
            let ghost rec_ts = rts@;
            let ghost rec_ds = rds@;
            rts.insert(0, t);
            rds.insert(0, true);
            proof {
                let o = spec_join_round(tasks@, done@, m0);
                assert(rts@ =~= o.0);
                assert(rds@ =~= o.1);
                lemma_join_round_head(tasks@, done@, m0, tail_tasks, tail_done, reactor@);
                assert forall|i: int| 0 <= i < tasks@.len() implies rts@[i].id@
                    == tasks@[i].id@ by {
                    if i > 0 {
                        assert(rts@[i] == rec_ts[i - 1]);
                        assert(tail_tasks[i - 1] == tasks@[i]);
                    }
                }
                assert forall|i: int| 0 <= i < done@.len() && done@[i] implies rds@[i] by {
                    if i > 0 {
                        assert(rds@[i] == rec_ds[i - 1]);
                        assert(tail_done[i - 1] == done@[i]);
                    }
                }
            }
            (rts, rds)
        } else {
            let (p, request) = t.poll(reactor);
            match request {
                Some(q) => issued.push(q),
                None => {},
            }
            let ghost m1 = reactor@;
            let (mut rts, mut rds) = join_round(ts, ds, reactor, issued);
            let ghost rec_ts = rts@;
            let ghost rec_ds = rds@;
            rts.insert(0, t);
            rds.insert(
                0,
                match p {
                    Poll::Ready(_) => true,
                    Poll::Pending => false,
                },
            );
            proof {
                let o = spec_join_round(tasks@, done@, m0);
                assert(rts@ =~= o.0);
                assert(rds@ =~= o.1);
                assert(issued@ =~= old(issued)@ + o.3);
                lemma_join_round_head(tasks@, done@, m0, tail_tasks, tail_done, reactor@);
                assert forall|i: int| 0 <= i < tasks@.len() implies rts@[i].id@
                    == tasks@[i].id@ by {
                    if i > 0 {
                        assert(rts@[i] == rec_ts[i - 1]);
                        assert(tail_tasks[i - 1] == tasks@[i]);
                    }
                }
                assert forall|i: int| 0 <= i < done@.len() && done@[i] implies rds@[i] by {
                    if i > 0 {
                        assert(rds@[i] == rec_ds[i - 1]);
                        assert(tail_done[i - 1] == done@[i]);
                    }
                }
            }
            (rts, rds)
        }
    }
}

/// What `join` leaves behind: whether every task completed (`false` once
/// the inbox ran dry with a task still pending), the reactor map, the
/// remaining inbox, and the system calls issued.  Each spin iteration is
/// one round over the not-yet-done tasks followed by one consumed word.
pub open spec fn spec_join(
    tasks: Seq<UserTask>,
    done: Seq<bool>,
    m: Map<usize, TaskState>,
    inbox: Seq<usize>,
) -> (bool, Map<usize, TaskState>, Seq<usize>, Seq<SyscallRequest>)
    decreases inbox.len(),
{
    let ro = spec_join_round(tasks, done, m);
    if all_true(ro.1) {
        (true, ro.2, inbox, ro.3)
    } else if inbox.len() == 0 {
        (false, ro.2, inbox, ro.3)
    } else {
        let m2 = spec_deliver(ro.2, inbox[0]);
        let rec = spec_join(ro.0, ro.1, m2, inbox.subrange(1, inbox.len() as int));
        (rec.0, rec.1, rec.2, ro.3 + rec.3)
    }
}

/// Whether every completion flag is set.
fn all_done(done: &Vec<bool>) -> (r: bool)
    ensures
        r == all_true(done@),
{
    let mut i: usize = 0;
    while i < done.len()
        invariant
            i <= done@.len(),
            forall|j: int| 0 <= j < i ==> done@[j],
        decreases done@.len() - i,
    {
        if !done[i] {
            return false;
        }
        i = i + 1;
    }
    true
}

/// Drives rounds and deliveries until every flag is set or the inbox runs
/// dry, as `spec_join` lays it out.  Under the join invariant, a `true`
/// result means every task is `Finish` in the reactor.
fn join_drive(
    tasks: Vec<UserTask>,
    done: Vec<bool>,
    reactor: &mut Reactor,
    inbox: &mut Vec<usize>,
    issued: &mut Vec<SyscallRequest>,
) -> (r: bool)
    requires
        done@.len() == tasks@.len(),
    ensures
        ({
            let o = spec_join(tasks@, done@, old(reactor)@, old(inbox)@);
            &&& r == o.0
            &&& final(reactor)@ == o.1
            &&& final(inbox)@ == o.2
            &&& final(issued)@ == old(issued)@ + o.3
        }),
        !r ==> final(inbox)@.len() == 0,
        join_invariant(tasks@, done@, old(reactor)@) && r ==> forall|i: int|
            0 <= i < tasks@.len() ==> spec_is_finish(final(reactor)@, tasks@[i].id@),
    decreases old(inbox)@.len(),
{
    let ghost m0 = reactor@;
    let ghost inbox0 = inbox@;
    let (ts, ds) = join_round(tasks, done, reactor, issued);
    let ghost m1 = reactor@;
    if all_done(&ds) {
        proof {
            if join_invariant(tasks@, done@, m0) {
                assert(join_invariant(ts@, ds@, m1));
                assert forall|i: int| 0 <= i < tasks@.len() implies spec_is_finish(
                    reactor@,
                    tasks@[i].id@,
                ) by {
                    assert(ds@[i]);
                    assert(spec_is_finish(m1, ts@[i].id@));
                    assert(ts@[i].id@ == tasks@[i].id@);
                }
            }
        }
        true
    } else if inbox.len() == 0 {
        false
    } else {
        let msg = inbox.remove(0);
        deliver(reactor, msg);
        proof {
            if join_invariant(tasks@, done@, m0) {
                assert(join_invariant(ts@, ds@, m1));
                assert forall|i: int| 0 <= i < ts@.len() implies (ds@[i] ==> spec_is_finish(
                    reactor@,
                    ts@[i].id@,
                )) && (!ds@[i] ==> !spec_is_finish(reactor@, ts@[i].id@)) && (!ds@[i]
                    && !ts@[i].future.spec_first() ==> reactor@.contains_key(ts@[i].id@)) by {
                    lemma_deliver_preserves_entries(m1, msg, ts@[i].id@);
                }
                assert(join_invariant(ts@, ds@, reactor@));
            }
        }
        let r = join_drive(ts, ds, reactor, inbox, issued);
        proof {
            assert(issued@ =~= old(issued)@ + spec_join(tasks@, done@, m0, inbox0).3);
        }
        r
    }
}

/// Round-robin polls the tasks, skipping any already complete, and returns
/// only once all of them are, exactly as `spec_join` lays it out, starting
/// with every completion flag clear.
///
/// When the tasks carry distinct ids, none of them is already `Finish` in
/// the reactor, and every one past its first phase is registered — as holds
/// for freshly built tasks — a `true` result leaves every one of them
/// `Finish` in the reactor, irrespective of the order in which their
/// completion words arrived.  `false` reports that the inbox ran dry with a
/// task still pending.
pub fn join(
    tasks: Vec<UserTask>,
    reactor: &mut Reactor,
    inbox: &mut Vec<usize>,
    issued: &mut Vec<SyscallRequest>,
) -> (r: bool)
    ensures
        ({
            let done0 = Seq::new(tasks@.len(), |i: int| false);
            let o = spec_join(tasks@, done0, old(reactor)@, old(inbox)@);
            &&& r == o.0
            &&& final(reactor)@ == o.1
            &&& final(inbox)@ == o.2
            &&& final(issued)@ == old(issued)@ + o.3
        }),
        !r ==> final(inbox)@.len() == 0,
        distinct_ids(tasks@) && (forall|i: int|
            0 <= i < tasks@.len() ==> !spec_is_finish(old(reactor)@, tasks@[i].id@)) && (forall|
            i: int,
        |
            0 <= i < tasks@.len() && !tasks@[i].future.spec_first() ==> old(
                reactor,
            )@.contains_key(tasks@[i].id@)) && r ==> forall|i: int|
            0 <= i < tasks@.len() ==> spec_is_finish(final(reactor)@, tasks@[i].id@),
{
    let mut done: Vec<bool> = Vec::new();
    let n = tasks.len();
    let mut i: usize = 0;
    while i < n
        invariant
            i <= n,
            done@.len() == i,
            forall|j: int| 0 <= j < i ==> !done@[j],
        decreases n - i,
    {
        done.push(false);
        i = i + 1;
    }
    proof {
        assert(done@ =~= Seq::new(tasks@.len(), |i: int| false));
    }
    join_drive(tasks, done, reactor, inbox, issued)
}

/// The bookkeeping behind reassembling a round: facts about the head task
/// against the tail's round, packaged so `join_round` can discharge its
/// frame and invariant clauses.
proof fn lemma_join_round_head(
    tasks: Seq<UserTask>,
    done: Seq<bool>,
    m: Map<usize, TaskState>,
    tail_tasks: Seq<UserTask>,
    tail_done: Seq<bool>,
    m_final: Map<usize, TaskState>,
)
    requires
        tasks.len() > 0,
        tail_tasks == tasks.subrange(1, tasks.len() as int),
    ensures
        forall|id: usize| owns_id(tail_tasks, id) ==> owns_id(tasks, id),
        distinct_ids(tasks) ==> !owns_id(tail_tasks, tasks[0].id@),
        distinct_ids(tasks) ==> distinct_ids(tail_tasks),
{
    assert forall|id: usize| owns_id(tail_tasks, id) implies owns_id(tasks, id) by {
        let i = choose|i: int| 0 <= i < tail_tasks.len() && tail_tasks[i].id@ == id;
        assert(tasks[i + 1].id@ == id);
    }
    if distinct_ids(tasks) {
        assert forall|i: int, j: int|
            0 <= i < j < tail_tasks.len() implies tail_tasks[i].id@ != tail_tasks[j].id@ by {
            assert(tasks[i + 1].id@ != tasks[j + 1].id@);
        }
        if owns_id(tail_tasks, tasks[0].id@) {
            let i = choose|i: int|
                0 <= i < tail_tasks.len() && tail_tasks[i].id@ == tasks[0].id@;
            assert(tasks[i + 1].id@ == tasks[0].id@);
            assert(false);
        }
    }
}

} // verus!
