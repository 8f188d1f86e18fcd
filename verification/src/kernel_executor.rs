//! Kernel-side executor: the queue of pending kernel tasks and the drive
//! loop that takes them in arrival order and applies the task state machine.
//!
//! One call of `run_until_idle` is one pass over the queue: every task
//! present at entry is popped once and given the three-branch treatment;
//! completed tasks leave the queue and their completion signals are handed
//! back for delivery, and a task whose wake has not arrived is re-armed and
//! retained, in order, for the next pass.  Readiness only changes when the
//! interrupt path runs, between calls, so within one call a retained task
//! stays pending and one pass is everything the loop can do before it must
//! wait; the surrounding runtime repeats the call as interrupts arrive.
//!
//! In the running system, interrupt delivery is masked around the pop alone,
//! and the reactor lock is released before a task's future is polled, so a
//! completion signal can land between pop and poll without deadlock.  Here
//! both structures are owned by the caller and threaded through the calls.

use std::collections::VecDeque;
use vstd::prelude::*;

verus! {

use crate::Poll;
use crate::kernel_task::{CompletionSignal, KernelTask};
use crate::reactor::{Reactor, TaskState, spec_is_ready};
use crate::task_id::TaskId;

broadcast use vstd::std_specs::vecdeque::group_vec_dequeue_axioms;

/// Pending kernel tasks in arrival order.  The queue owns its tasks
/// exclusively for their whole lifetime.
pub struct KernelTaskQueue {
    queue: VecDeque<KernelTask>,
}

impl View for KernelTaskQueue {
    type V = Seq<KernelTask>;

    closed spec fn view(&self) -> Seq<KernelTask> {
        self.queue@
    }
}

impl KernelTaskQueue {
    /// An empty queue.
    pub fn new() -> (q: KernelTaskQueue)
        ensures
            q@ == Seq::<KernelTask>::empty(),
    {
        KernelTaskQueue { queue: VecDeque::new() }
    }

    /// How many tasks are pending.
    pub fn len(&self) -> (n: usize)
        ensures
            n == self@.len(),
    {
        self.queue.len()
    }

    /// Appends `task` at the back: arrival order is queue order.
    pub fn add_task(&mut self, task: KernelTask)
        ensures
            final(self)@ == old(self)@.push(task),
    {
        self.queue.push_back(task);
    }

    /// Takes the front task out of the queue, if any.  The caller owns it
    /// from here on and requeues it itself if the task stays pending.
    pub fn peek_task(&mut self) -> (r: Option<KernelTask>)
        ensures
            match r {
                Some(task) => {
                    &&& old(self)@.len() > 0
                    &&& task == old(self)@[0]
                    &&& final(self)@ == old(self)@.subrange(1, old(self)@.len() as int)
                },
                None => {
                    &&& old(self)@.len() == 0
                    &&& final(self)@ == old(self)@
                },
            },
    {
        self.queue.pop_front()
    }

    /// Removes the first queued task that carries `id`.  Asking for an id
    /// that is not queued is a protocol violation and excluded here.
    pub fn delete_task(&mut self, id: TaskId)
        requires
            exists|k: int| 0 <= k < old(self)@.len() && old(self)@[k].id@ == id@,
        ensures
            exists|k: int|
                {
                    &&& 0 <= k < old(self)@.len()
                    &&& old(self)@[k].id@ == id@
                    &&& forall|j: int| 0 <= j < k ==> old(self)@[j].id@ != id@
                    &&& final(self)@ == old(self)@.remove(k)
                },
    {
        let mut i: usize = 0;
        while i < self.queue.len()
            invariant
                i <= self.queue@.len(),
                self.queue@ == old(self)@,
                forall|j: int| 0 <= j < i ==> self.queue@[j].id@ != id@,
                exists|k: int| i <= k < self.queue@.len() && self.queue@[k].id@ == id@,
            decreases self.queue@.len() - i,
        {
            if self.queue[i].id == id {
                let _ = self.queue.remove(i);
                return ;
            }
            i = i + 1;
        }
    }
}

/// What one pass of the kernel drive loop leaves behind: the reactor map,
/// the completion signals of the tasks that finished, in arrival order, and
/// the tasks still pending, retained in arrival order.  Each task is taken
/// once: a ready one is finished and announced, one awaiting its wake is
/// re-armed and retained, and an unseen one resolves at once and is
/// announced (the four built-in operations never suspend).
pub open spec fn spec_run(queue: Seq<KernelTask>, m: Map<usize, TaskState>) -> (Map<
    usize,
    TaskState,
>, Seq<CompletionSignal>, Seq<KernelTask>)
    decreases queue.len(),
{
    if queue.len() == 0 {
        (m, Seq::empty(), Seq::empty())
    } else {
        let task = queue[0];
        let rest = queue.subrange(1, queue.len() as int);
        if spec_is_ready(m, task.id@) {
            let rec = spec_run(rest, m.insert(task.id@, TaskState::Finish));
            (rec.0, seq![task.spec_signal()] + rec.1, rec.2)
        } else if m.contains_key(task.id@) {
            let rec = spec_run(rest, m.insert(task.id@, TaskState::NotReady));
            (rec.0, rec.1, seq![task] + rec.2)
        } else {
            let rec = spec_run(rest, m);
            (rec.0, seq![task.spec_signal()] + rec.1, rec.2)
        }
    }
}

/// Processes the front `remaining` tasks of the queue once each, appending
/// the completion signals to `signals` and requeueing pending tasks at the
/// back, behind whatever follows the processed range.
fn run_pass(
    queue: &mut KernelTaskQueue,
    reactor: &mut Reactor,
    remaining: usize,
    signals: &mut Vec<CompletionSignal>,
)
    requires
        remaining <= old(queue)@.len(),
        forall|i: int| 0 <= i < old(queue)@.len() ==> (#[trigger] old(queue)@[i]).wf(),
    ensures
        ({
            let taken = old(queue)@.subrange(0, remaining as int);
            let rest = old(queue)@.subrange(remaining as int, old(queue)@.len() as int);
            let o = spec_run(taken, old(reactor)@);
            &&& final(reactor)@ == o.0
            &&& final(signals)@ == old(signals)@ + o.1
            &&& final(queue)@ == rest + o.2
        }),
        forall|i: int| 0 <= i < final(queue)@.len() ==> (#[trigger] final(queue)@[i]).wf(),
    decreases remaining,
{
    let ghost q0 = queue@;
    let ghost m0 = reactor@;
    let ghost taken = queue@.subrange(0, remaining as int);
    let ghost rest = queue@.subrange(remaining as int, queue@.len() as int);
    if remaining == 0 {
        proof {
            assert(queue@ =~= rest + spec_run(taken, m0).2);
            assert(signals@ =~= signals@ + spec_run(taken, m0).1);
        }
        return ;
    }
    let task = match queue.peek_task() {
        Some(task) => task,
        None => vstd::pervasive::unreached(),
    };
    proof {
        assert(task == taken[0]);
        assert(task.wf());
    }
    if reactor.is_ready(task.id) {
        match task.future.poll() {
            Poll::Ready(_) => {
                reactor.finish_task(task.id);
                let msg = crate::signal::encode_completion(task.user_task_id);
                signals.push(task.send_msg(msg));
            },
            Poll::Pending => {
                let _ = reactor.add_task(task.id);
                queue.add_task(task);
            },
        }
    } else if reactor.contains_task(task.id) {
        let _ = reactor.add_task(task.id);
        queue.add_task(task);
    } else {
        match task.future.poll() {
            Poll::Ready(_) => {
                let msg = crate::signal::encode_completion(task.user_task_id);
                signals.push(task.send_msg(msg));
            },
            Poll::Pending => {
                reactor.register(task.id);
                queue.add_task(task);
            },
        }
    }
    proof {
        assert forall|i: int| 0 <= i < queue@.len() implies (#[trigger] queue@[i]).wf() by {
            if i < q0.len() - 1 {
                assert(queue@[i] == q0[i + 1]);
            } else {
                assert(queue@[i] == task);
            }
        }
        assert(queue@.subrange(0, remaining - 1) =~= taken.subrange(1, taken.len() as int));
    }
    let ghost signals_mid = signals@;
    let ghost rest_mid = queue@.subrange(remaining - 1, queue@.len() as int);
    run_pass(queue, reactor, remaining - 1, signals);
    proof {
        let o = spec_run(taken, m0);
        let o_rec = spec_run(taken.subrange(1, taken.len() as int), reactor_after_head(task, m0));
        assert(signals@ =~= old(signals)@ + o.1);
        assert(queue@ =~= rest + o.2);
    }
}

/// The reactor map after the pass handled its front task: the head case of
/// `spec_run`, named so the stitching proof in `run_pass` can speak of it.
pub open spec fn reactor_after_head(task: KernelTask, m: Map<usize, TaskState>) -> Map<
    usize,
    TaskState,
> {
    if spec_is_ready(m, task.id@) {
        m.insert(task.id@, TaskState::Finish)
    } else if m.contains_key(task.id@) {
        m.insert(task.id@, TaskState::NotReady)
    } else {
        m
    }
}

/// One pass of the kernel drive loop, as `spec_run` describes: takes every
/// task queued at entry once, in arrival order, removes the completed ones
/// and returns their completion signals in that order, and retains the
/// still-pending ones re-armed for the next pass.  The caller delivers the
/// signals through the inter-process signal primitive and calls again once
/// the interrupt path has changed readiness; a pass is everything the loop
/// can do until then.
pub fn run_until_idle(queue: &mut KernelTaskQueue, reactor: &mut Reactor) -> (signals: Vec<
    CompletionSignal,
>)
    requires
        forall|i: int| 0 <= i < old(queue)@.len() ==> (#[trigger] old(queue)@[i]).wf(),
    ensures
        ({
            let o = spec_run(old(queue)@, old(reactor)@);
            &&& final(reactor)@ == o.0
            &&& signals@ == o.1
            &&& final(queue)@ == o.2
        }),
        forall|i: int| 0 <= i < final(queue)@.len() ==> (#[trigger] final(queue)@[i]).wf(),
{
    let mut signals: Vec<CompletionSignal> = Vec::new();
    let n = queue.len();
    proof {
        assert(queue@.subrange(0, n as int) =~= queue@);
    }
    run_pass(queue, reactor, n, &mut signals);
    proof {
        let o = spec_run(old(queue)@, old(reactor)@);
        assert(old(queue)@.subrange(n as int, old(queue)@.len() as int) =~= Seq::<
            KernelTask,
        >::empty());
        assert(signals@ =~= o.1);
        assert(queue@ =~= o.2);
    }
    signals
}

} // verus!
