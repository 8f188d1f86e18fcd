//! Kernel-side task entity: one suspended operation, its task id, the
//! process it acts for, and the caller's correlation id that routes the
//! completion signal back into the other address space.
//!
//! Polling a task is a three-branch state machine over the reactor:
//! 1. the reactor reports the task ready: mark it `Finish` and announce the
//!    completion signal;
//! 2. the reactor knows the task but it is not ready: re-arm it and report
//!    pending without touching the inner future, since the awaited wake has
//!    not arrived yet;
//! 3. the reactor has never seen the task: poll the inner future directly;
//!    if it resolves immediately the task completes without ever
//!    registering, otherwise registering with the reactor is the suspension
//!    point.

use vstd::prelude::*;

verus! {

use crate::Poll;
use crate::kernel_fs::{AsyncClose, AsyncPipeOpen, AsyncRead, AsyncWrite};
use crate::reactor::{Reactor, TaskState, spec_is_ready};
use crate::signal::spec_encode;
use crate::task_id::{TaskId, TaskIdAllocator, id_limit};

/// The closed set of operations a kernel task can carry.  All four execute
/// the instant they are polled and resolve on the first poll.
pub enum KernelFuture {
    Read(AsyncRead),
    Write(AsyncWrite),
    Close(AsyncClose),
    PipeOpen(AsyncPipeOpen),
}

impl KernelFuture {
    /// The result code the carried operation resolves with.
    pub open spec fn spec_output(&self) -> isize {
        match self {
            KernelFuture::Read(f) => f.file.transfer_result,
            KernelFuture::Write(f) => f.file.transfer_result,
            KernelFuture::Close(f) => f.spec_result(),
            KernelFuture::PipeOpen(_) => 0,
        }
    }

    /// Polls the carried operation; each of the four built-ins resolves on
    /// the first poll.
    pub fn poll(&self) -> (r: Poll)
        ensures
            r == Poll::Ready(self.spec_output()),
    {
        match self {
            KernelFuture::Read(f) => f.poll(),
            KernelFuture::Write(f) => f.poll(),
            KernelFuture::Close(f) => f.poll(),
            KernelFuture::PipeOpen(f) => f.poll(),
        }
    }
}

/// One word of "operation done" for process `pid`, ready for the
/// inter-process signal primitive: delivering it is the caller's part.
#[derive(Clone, Copy, Debug, PartialEq, Eq, Structural)]
pub struct CompletionSignal {
    pub pid: usize,
    pub message: usize,
}

/// A suspended kernel-side operation, owned by the kernel task queue for its
/// whole lifetime.  The reactor only ever owns state keyed by `id`, never
/// the task.
pub struct KernelTask {
    /// The task's own id in the kernel reactor.
    pub id: TaskId,
    /// The calling process.
    pub pid: usize,
    /// The caller's correlation id, embedded into the completion signal.
    pub user_task_id: usize,
    /// The deferred operation.
    pub future: KernelFuture,
}

impl KernelTask {
    /// The task id was issued by an allocator and the correlation id stays
    /// in the issuable half of the range, so the poll result fits a result
    /// code and the completion signal can always be encoded.
    pub open spec fn wf(&self) -> bool {
        self.id@ <= id_limit() && self.user_task_id <= id_limit()
    }

    /// The completion signal the task announces when it finishes.
    pub open spec fn spec_signal(&self) -> CompletionSignal {
        CompletionSignal { pid: self.pid, message: spec_encode(self.user_task_id) as usize }
    }

    /// A fresh task around `future`, acting for process `pid` on behalf of
    /// the caller's task `user_task_id`, with its id drawn from `allocator`.
    pub fn new(pid: usize, user_task_id: usize, future: KernelFuture, allocator: &mut TaskIdAllocator) -> (t: KernelTask)
        requires
            old(allocator).wf(),
            !old(allocator).exhausted(),
            user_task_id <= id_limit(),
        ensures
            final(allocator).wf(),
            final(allocator).next_id() == old(allocator).next_id() + 1,
            final(allocator).issued() == old(allocator).issued().push(t.id@),
            t.id@ == old(allocator).next_id(),
            forall|i: int|
                0 <= i < old(allocator).issued().len() ==> old(allocator).issued()[i] < t.id@,
            t.pid == pid,
            t.user_task_id == user_task_id,
            t.future == future,
            t.wf(),
    {
        let id = TaskId::generate(allocator);
        KernelTask { id, pid, user_task_id, future }
    }

    /// Stamps `msg` with the owning process, ready for delivery.  The
    /// inter-process signal primitive that carries it is a collaborator;
    /// whoever runs the executor hands the signal to it.
    pub fn send_msg(&self, msg: usize) -> (s: CompletionSignal)
        ensures
            s == (CompletionSignal { pid: self.pid, message: msg }),
    {
        CompletionSignal { pid: self.pid, message: msg }
    }

    /// One poll of the task: the three-branch state machine described at the
    /// module head, against the owning reactor.  Beside the poll outcome it
    /// returns the completion signal to deliver whenever the task finished,
    /// through a consumed wake or at once.
    ///
    /// A task whose inner future resolves on its very first poll announces
    /// its completion signal but never registers with the reactor, which is
    /// left untouched.
    pub fn poll(&self, reactor: &mut Reactor) -> (r: (Poll, Option<CompletionSignal>))
        requires
            self.wf(),
        ensures
            spec_is_ready(old(reactor)@, self.id@) ==> {
                &&& final(reactor)@ == old(reactor)@.insert(self.id@, TaskState::Finish)
                &&& r.0 == Poll::Ready(self.id@ as isize)
                &&& r.1 == Some(self.spec_signal())
            },
            !spec_is_ready(old(reactor)@, self.id@) && old(reactor)@.contains_key(self.id@) ==> {
                &&& final(reactor)@ == old(reactor)@.insert(self.id@, TaskState::NotReady)
                &&& r == (Poll::Pending, Option::<CompletionSignal>::None)
            },
            !old(reactor)@.contains_key(self.id@) ==> {
                &&& final(reactor)@ == old(reactor)@
                &&& r == (Poll::Ready(0isize), Some(self.spec_signal()))
            },
    {
        if reactor.is_ready(self.id) {
            reactor.finish_task(self.id);
            let msg = crate::signal::encode_completion(self.user_task_id);
            (Poll::Ready(self.id.value as isize), Some(self.send_msg(msg)))
        } else if reactor.contains_task(self.id) {
            let _ = reactor.add_task(self.id);
            (Poll::Pending, None)
        } else {
            match self.future.poll() {
                Poll::Ready(_) => {
                    let msg = crate::signal::encode_completion(self.user_task_id);
                    (Poll::Ready(0), Some(self.send_msg(msg)))
                },
                Poll::Pending => {
                    reactor.register(self.id);
                    (Poll::Pending, None)
                },
            }
        }
    }

    /// Retires the task: deletes its reactor entry, whatever its state, as
    /// dropping the owning queue entry does.  A task abandoned halfway
    /// leaves no reactor entry behind.
    pub fn release(self, reactor: &mut Reactor)
        ensures
            final(reactor)@ == old(reactor)@.remove(self.id@),
            !final(reactor)@.contains_key(self.id@),
    {
        let _ = reactor.remove_task(self.id);
    }
}

} // verus!
