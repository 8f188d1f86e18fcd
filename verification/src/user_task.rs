//! User-side task entity: one suspended two-phase operation and its id.
//!
//! Polling a task is the same three-branch state machine as on the kernel
//! side, against the user reactor:
//! 1. the reactor reports the task ready: mark it `Finish` and drive the
//!    inner future to its result;
//! 2. the reactor knows the task but it is not ready: re-arm it and report
//!    pending without touching the inner future;
//! 3. the reactor has never seen the task: poll the inner future; its first
//!    poll issues the system call and suspends, so registering with the
//!    reactor here is the suspension point.

use vstd::prelude::*;

verus! {

use crate::Poll;
use crate::reactor::{Reactor, TaskState, spec_is_ready};
use crate::task_id::{TaskId, TaskIdAllocator, id_limit};
use crate::user_fs::{AsyncClose, AsyncPipe, AsyncRead, AsyncWrite, SyscallRequest};

/// The closed set of operations a user task can carry, all two-phase.
#[derive(Clone, Copy, Debug, PartialEq, Eq, Structural)]
pub enum UserFuture {
    Close(AsyncClose),
    Read(AsyncRead),
    Write(AsyncWrite),
    Pipe(AsyncPipe),
}

impl UserFuture {
    /// Whether the first phase, issuing the syscall, is still ahead.
    pub open spec fn spec_first(&self) -> bool {
        match self {
            UserFuture::Close(f) => f.first,
            UserFuture::Read(f) => f.first,
            UserFuture::Write(f) => f.first,
            UserFuture::Pipe(f) => f.first,
        }
    }

    /// The correlation token the future carries: its owning task's id.
    pub open spec fn spec_task_id(&self) -> usize {
        match self {
            UserFuture::Close(f) => f.task_id,
            UserFuture::Read(f) => f.task_id,
            UserFuture::Write(f) => f.task_id,
            UserFuture::Pipe(f) => f.task_id,
        }
    }

    /// The syscall the future issues on its first poll.
    pub open spec fn spec_request(&self) -> SyscallRequest {
        match self {
            UserFuture::Close(f) => f.spec_request(),
            UserFuture::Read(f) => f.spec_request(),
            UserFuture::Write(f) => f.spec_request(),
            UserFuture::Pipe(f) => f.spec_request(),
        }
    }

    /// The future after its first phase: the same operation, issued.
    pub open spec fn spec_after_first(&self) -> UserFuture {
        match self {
            UserFuture::Close(f) => UserFuture::Close(
                AsyncClose { first: false, task_id: f.task_id, fd: f.fd },
            ),
            UserFuture::Read(f) => UserFuture::Read(
                AsyncRead {
                    first: false,
                    task_id: f.task_id,
                    fd: f.fd,
                    buffer: f.buffer,
                    len: f.len,
                },
            ),
            UserFuture::Write(f) => UserFuture::Write(
                AsyncWrite {
                    first: false,
                    task_id: f.task_id,
                    fd: f.fd,
                    buffer: f.buffer,
                    len: f.len,
                },
            ),
            UserFuture::Pipe(f) => UserFuture::Pipe(
                AsyncPipe { first: false, task_id: f.task_id, pipe: f.pipe },
            ),
        }
    }

    /// Polls the carried operation: the first poll issues its syscall and
    /// suspends, any later poll reports the fixed success code.
    pub fn poll(&mut self) -> (r: (Poll, Option<SyscallRequest>))
        ensures
            old(self).spec_first() ==> *final(self) == old(self).spec_after_first() && r == (
                Poll::Pending,
                Some(old(self).spec_request()),
            ),
            !old(self).spec_first() ==> *final(self) == *old(self) && r == (
                Poll::Ready(0isize),
                None::<SyscallRequest>,
            ),
    {
        match self {
            UserFuture::Close(f) => f.poll(),
            UserFuture::Read(f) => f.poll(),
            UserFuture::Write(f) => f.poll(),
            UserFuture::Pipe(f) => f.poll(),
        }
    }
}

/// A suspended user-side operation with its id.  The wrapper that awaits it
/// owns it; the reactor owns only the state keyed by `id`.
#[derive(Clone, Copy, Debug, PartialEq, Eq, Structural)]
pub struct UserTask {
    /// The task's own id in the user reactor, which the inner future also
    /// carries as its correlation token.
    pub id: TaskId,
    /// The deferred two-phase operation.
    pub future: UserFuture,
}

/// What one poll of a user task leaves behind: the task, the reactor map,
/// the poll outcome, and the syscall to issue if the inner future just ran
/// its first phase.
pub open spec fn spec_user_poll(t: UserTask, m: Map<usize, TaskState>) -> (UserTask, Map<
    usize,
    TaskState,
>, Poll, Option<SyscallRequest>) {
    let id = t.id@;
    if spec_is_ready(m, id) {
        if t.future.spec_first() {
            // The inner future was never polled: its first poll issues the
            // call and suspends, and the re-arm demotes the consumed
            // readiness back to not-ready.
            (
                UserTask { id: t.id, future: t.future.spec_after_first() },
                m.insert(id, TaskState::NotReady),
                Poll::Pending,
                Some(t.future.spec_request()),
            )
        } else {
            (t, m.insert(id, TaskState::Finish), Poll::Ready(0isize), None)
        }
    } else if m.contains_key(id) {
        (t, m.insert(id, TaskState::NotReady), Poll::Pending, None)
    } else {
        if t.future.spec_first() {
            (
                UserTask { id: t.id, future: t.future.spec_after_first() },
                m.insert(id, TaskState::NotReady),
                Poll::Pending,
                Some(t.future.spec_request()),
            )
        } else {
            (t, m, Poll::Ready(0isize), None)
        }
    }
}

/// No two of the tasks share an id: what one allocator hands out.
pub open spec fn distinct_ids(tasks: Seq<UserTask>) -> bool {
    forall|i: int, j: int| 0 <= i < j < tasks.len() ==> tasks[i].id@ != tasks[j].id@
}

/// A suspending task registers exactly once.  The first poll of a task the
/// reactor has never seen, whose inner future has yet to issue its call,
/// inserts the task's id as not-ready and hands the call out; any further
/// poll before the wake arrives re-arms that entry and leaves the inner
/// future untouched, issuing nothing.
pub proof fn lemma_poll_registers_once(t: UserTask, m: Map<usize, TaskState>)
    ensures
        !m.contains_key(t.id@) && t.future.spec_first() ==> {
            let o = spec_user_poll(t, m);
            &&& o.1 == m.insert(t.id@, TaskState::NotReady)
            &&& o.2 == Poll::Pending
            &&& o.3 == Some(t.future.spec_request())
        },
        m.contains_key(t.id@) && !spec_is_ready(m, t.id@) ==> {
            let o = spec_user_poll(t, m);
            &&& o.0 == t
            &&& o.1 == m.insert(t.id@, TaskState::NotReady)
            &&& o.2 == Poll::Pending
            &&& o.3 == None::<SyscallRequest>
        },
{
}

/// A poll touches the reactor only at the polled task's own id: every other
/// entry is left exactly as it was.
pub proof fn lemma_user_poll_frames_others(t: UserTask, m: Map<usize, TaskState>, id: usize)
    requires
        id != t.id@,
    ensures
        spec_user_poll(t, m).1.contains_key(id) == m.contains_key(id),
        m.contains_key(id) ==> spec_user_poll(t, m).1[id] == m[id],
{
}

impl UserTask {
    /// The inner future carries the task's own id as correlation token,
    /// and the id lies in the issuable half of the range.
    pub open spec fn wf(&self) -> bool {
        self.future.spec_task_id() == self.id@ && self.id@ <= id_limit()
    }

    /// A fresh task around `future`, with its id drawn from `allocator`.
    pub fn new(future: UserFuture, allocator: &mut TaskIdAllocator) -> (t: UserTask)
        requires
            old(allocator).wf(),
            !old(allocator).exhausted(),
        ensures
            final(allocator).wf(),
            final(allocator).next_id() == old(allocator).next_id() + 1,
            final(allocator).issued() == old(allocator).issued().push(t.id@),
            t.id@ == old(allocator).next_id(),
            forall|i: int|
                0 <= i < old(allocator).issued().len() ==> old(allocator).issued()[i] < t.id@,
            t.future == future,
    {
        let id = TaskId::generate(allocator);
        UserTask { id, future }
    }

    /// One poll of the task: the three-branch state machine described at
    /// the module head, exactly as `spec_user_poll` lays it out.
    ///
    /// In particular: a task the reactor has not seen registers exactly once
    /// (its first poll), and a later poll before any wake re-arms the entry
    /// and leaves the inner future untouched.
    pub fn poll(&mut self, reactor: &mut Reactor) -> (r: (Poll, Option<SyscallRequest>))
        ensures
            ({
                let o = spec_user_poll(*old(self), old(reactor)@);
                &&& *final(self) == o.0
                &&& final(reactor)@ == o.1
                &&& r.0 == o.2
                &&& r.1 == o.3
            }),
    {
        if reactor.is_ready(self.id) {
            reactor.finish_task(self.id);
            let (p, request) = self.future.poll();
            match p {
                Poll::Ready(val) => {
                    reactor.finish_task(self.id);
                    (Poll::Ready(val), request)
                },
                Poll::Pending => {
                    let _ = reactor.add_task(self.id);
                    (Poll::Pending, request)
                },
            }
        } else if reactor.contains_task(self.id) {
            let _ = reactor.add_task(self.id);
            (Poll::Pending, None)
        } else {
            let (p, request) = self.future.poll();
            match p {
                Poll::Ready(_) => (Poll::Ready(0), request),
                Poll::Pending => {
                    reactor.register(self.id);
                    (Poll::Pending, request)
                },
            }
        }
    }

    /// Retires the task: deletes its reactor entry, whatever its state, as
    /// dropping the wrapper that awaited it does.  A task that never
    /// completed leaves no reactor entry behind either.
    pub fn release(self, reactor: &mut Reactor)
        ensures
            final(reactor)@ == old(reactor)@.remove(self.id@),
            !final(reactor)@.contains_key(self.id@),
    {
        let _ = reactor.remove_task(self.id);
    }
}

} // verus!
