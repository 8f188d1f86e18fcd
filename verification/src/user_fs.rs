//! User-side operation futures: two-phase deferred syscalls.
//!
//! The first poll of such a future issues the real system call, carrying the
//! owning task's id as the correlation token, and reports pending; the
//! second poll, reached only after the reactor marks the task ready, reports
//! completion.  The underlying transfer result is not round-tripped through
//! this layer: only the fixed success code 0 surfaces.
//!
//! Issuing the call is outside work across the privilege boundary: a poll
//! hands back the request to issue, and the surrounding runtime performs it.

use vstd::prelude::*;

verus! {

use crate::Poll;
use crate::task_id::{TaskId, TaskIdAllocator};
use crate::user_task::{UserFuture, UserTask};

/// One system call to issue on behalf of a suspended task, with the
/// arguments the call carries, the task's own id among them as the
/// correlation token.
#[derive(Clone, Copy, Debug, PartialEq, Eq, Structural)]
pub enum SyscallRequest {
    Read { fd: usize, buffer: usize, len: usize, task_id: usize },
    Write { fd: usize, buffer: usize, len: usize, task_id: usize },
    Close { fd: usize, task_id: usize },
    Pipe { pipe: usize, task_id: usize },
}

/// Deferred close of descriptor `fd`.
#[derive(Clone, Copy, Debug, PartialEq, Eq, Structural)]
pub struct AsyncClose {
    pub first: bool,
    pub task_id: usize,
    pub fd: usize,
}

impl AsyncClose {
    /// The syscall this future issues on its first poll.
    pub open spec fn spec_request(&self) -> SyscallRequest {
        SyscallRequest::Close { fd: self.fd, task_id: self.task_id }
    }

    /// A task that closes `fd` asynchronously, under a fresh id.
    pub fn new(fd: usize, allocator: &mut TaskIdAllocator) -> (t: UserTask)
        requires
            old(allocator).wf(),
            !old(allocator).exhausted(),
        ensures
            final(allocator).wf(),
            final(allocator).next_id() == old(allocator).next_id() + 1,
            final(allocator).issued() == old(allocator).issued().push(t.id@),
            t.id@ == old(allocator).next_id(),
            forall|i: int|
                0 <= i < old(allocator).issued().len() ==> old(allocator).issued()[i] < t.id@,
            t.future == UserFuture::Close(
                AsyncClose { first: true, task_id: old(allocator).next_id(), fd },
            ),
            t.wf(),
    {
        let id = TaskId::generate(allocator);
        let future = AsyncClose { first: true, task_id: id.value, fd };
        UserTask { id, future: UserFuture::Close(future) }
    }

    /// First poll: issue the close and suspend.  Second poll: done.
    pub fn poll(&mut self) -> (r: (Poll, Option<SyscallRequest>))
        ensures
            old(self).first ==> *final(self) == (AsyncClose {
                first: false,
                task_id: old(self).task_id,
                fd: old(self).fd,
            }) && r == (Poll::Pending, Some(old(self).spec_request())),
            !old(self).first ==> *final(self) == *old(self) && r == (
                Poll::Ready(0isize),
                None::<SyscallRequest>,
            ),
    {
        if self.first {
            self.first = false;
            let request = SyscallRequest::Close { fd: self.fd, task_id: self.task_id };
            (Poll::Pending, Some(request))
        } else {
            (Poll::Ready(0), None)
        }
    }
}

/// Deferred read of `len` bytes into the user buffer at `buffer`.
#[derive(Clone, Copy, Debug, PartialEq, Eq, Structural)]
pub struct AsyncRead {
    pub first: bool,
    pub task_id: usize,
    pub fd: usize,
    pub buffer: usize,
    pub len: usize,
}

impl AsyncRead {
    /// The syscall this future issues on its first poll.
    pub open spec fn spec_request(&self) -> SyscallRequest {
        SyscallRequest::Read {
            fd: self.fd,
            buffer: self.buffer,
            len: self.len,
            task_id: self.task_id,
        }
    }

    /// A task that reads `len` bytes from `fd` into the buffer at `buffer`,
    /// asynchronously, under a fresh id.
    pub fn new(fd: usize, buffer: usize, len: usize, allocator: &mut TaskIdAllocator) -> (t:
        UserTask)
        requires
            old(allocator).wf(),
            !old(allocator).exhausted(),
        ensures
            final(allocator).wf(),
            final(allocator).next_id() == old(allocator).next_id() + 1,
            final(allocator).issued() == old(allocator).issued().push(t.id@),
            t.id@ == old(allocator).next_id(),
            forall|i: int|
                0 <= i < old(allocator).issued().len() ==> old(allocator).issued()[i] < t.id@,
            t.future == UserFuture::Read(
                AsyncRead { first: true, task_id: old(allocator).next_id(), fd, buffer, len },
            ),
            t.wf(),
    {
        let id = TaskId::generate(allocator);
        let future = AsyncRead { first: true, task_id: id.value, fd, buffer, len };
        UserTask { id, future: UserFuture::Read(future) }
    }

    /// First poll: issue the read and suspend.  Second poll: done.
    pub fn poll(&mut self) -> (r: (Poll, Option<SyscallRequest>))
        ensures
            old(self).first ==> *final(self) == (AsyncRead {
                first: false,
                task_id: old(self).task_id,
                fd: old(self).fd,
                buffer: old(self).buffer,
                len: old(self).len,
            }) && r == (Poll::Pending, Some(old(self).spec_request())),
            !old(self).first ==> *final(self) == *old(self) && r == (
                Poll::Ready(0isize),
                None::<SyscallRequest>,
            ),
    {
        if self.first {
            self.first = false;
            let request = SyscallRequest::Read {
                fd: self.fd,
                buffer: self.buffer,
                len: self.len,
                task_id: self.task_id,
            };
            (Poll::Pending, Some(request))
        } else {
            (Poll::Ready(0), None)
        }
    }
}

/// Deferred write of `len` bytes from the user buffer at `buffer`.
#[derive(Clone, Copy, Debug, PartialEq, Eq, Structural)]
pub struct AsyncWrite {
    pub first: bool,
    pub task_id: usize,
    pub fd: usize,
    pub buffer: usize,
    pub len: usize,
}

impl AsyncWrite {
    /// The syscall this future issues on its first poll.
    pub open spec fn spec_request(&self) -> SyscallRequest {
        SyscallRequest::Write {
            fd: self.fd,
            buffer: self.buffer,
            len: self.len,
            task_id: self.task_id,
        }
    }

    /// A task that writes `len` bytes from the buffer at `buffer` to `fd`,
    /// asynchronously, under a fresh id.
    pub fn new(fd: usize, buffer: usize, len: usize, allocator: &mut TaskIdAllocator) -> (t:
        UserTask)
        requires
            old(allocator).wf(),
            !old(allocator).exhausted(),
        ensures
            final(allocator).wf(),
            final(allocator).next_id() == old(allocator).next_id() + 1,
            final(allocator).issued() == old(allocator).issued().push(t.id@),
            t.id@ == old(allocator).next_id(),
            forall|i: int|
                0 <= i < old(allocator).issued().len() ==> old(allocator).issued()[i] < t.id@,
            t.future == UserFuture::Write(
                AsyncWrite { first: true, task_id: old(allocator).next_id(), fd, buffer, len },
            ),
            t.wf(),
    {
        let id = TaskId::generate(allocator);
        let future = AsyncWrite { first: true, task_id: id.value, fd, buffer, len };
        UserTask { id, future: UserFuture::Write(future) }
    }

    /// First poll: issue the write and suspend.  Second poll: done.
    pub fn poll(&mut self) -> (r: (Poll, Option<SyscallRequest>))
        ensures
            old(self).first ==> *final(self) == (AsyncWrite {
                first: false,
                task_id: old(self).task_id,
                fd: old(self).fd,
                buffer: old(self).buffer,
                len: old(self).len,
            }) && r == (Poll::Pending, Some(old(self).spec_request())),
            !old(self).first ==> *final(self) == *old(self) && r == (
                Poll::Ready(0isize),
                None::<SyscallRequest>,
            ),
    {
        if self.first {
            self.first = false;
            let request = SyscallRequest::Write {
                fd: self.fd,
                buffer: self.buffer,
                len: self.len,
                task_id: self.task_id,
            };
            (Poll::Pending, Some(request))
        } else {
            (Poll::Ready(0), None)
        }
    }
}

/// Deferred pipe opening: `pipe` is the user array that receives the two
/// fresh descriptors.
#[derive(Clone, Copy, Debug, PartialEq, Eq, Structural)]
pub struct AsyncPipe {
    pub first: bool,
    pub task_id: usize,
    pub pipe: usize,
}

impl AsyncPipe {
    /// The syscall this future issues on its first poll.
    pub open spec fn spec_request(&self) -> SyscallRequest {
        SyscallRequest::Pipe { pipe: self.pipe, task_id: self.task_id }
    }

    /// A task that opens a pipe asynchronously, under a fresh id.
    pub fn new(pipe: usize, allocator: &mut TaskIdAllocator) -> (t: UserTask)
        requires
            old(allocator).wf(),
            !old(allocator).exhausted(),
        ensures
            final(allocator).wf(),
            final(allocator).next_id() == old(allocator).next_id() + 1,
            final(allocator).issued() == old(allocator).issued().push(t.id@),
            t.id@ == old(allocator).next_id(),
            forall|i: int|
                0 <= i < old(allocator).issued().len() ==> old(allocator).issued()[i] < t.id@,
            t.future == UserFuture::Pipe(
                AsyncPipe { first: true, task_id: old(allocator).next_id(), pipe },
            ),
            t.wf(),
    {
        let id = TaskId::generate(allocator);
        let future = AsyncPipe { first: true, task_id: id.value, pipe };
        UserTask { id, future: UserFuture::Pipe(future) }
    }

    /// First poll: issue the pipe opening and suspend.  Second poll: done.
    pub fn poll(&mut self) -> (r: (Poll, Option<SyscallRequest>))
        ensures
            old(self).first ==> *final(self) == (AsyncPipe {
                first: false,
                task_id: old(self).task_id,
                pipe: old(self).pipe,
            }) && r == (Poll::Pending, Some(old(self).spec_request())),
            !old(self).first ==> *final(self) == *old(self) && r == (
                Poll::Ready(0isize),
                None::<SyscallRequest>,
            ),
    {
        if self.first {
            self.first = false;
            let request = SyscallRequest::Pipe { pipe: self.pipe, task_id: self.task_id };
            (Poll::Pending, Some(request))
        } else {
            (Poll::Ready(0), None)
        }
    }
}

} // verus!
