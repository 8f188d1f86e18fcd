//! Kernel-side syscall dispatch for the asynchronous file operations, and
//! the inter-process mailbox calls.
//!
//! A correlation id of 0 selects the synchronous path: the operation's
//! verdict is returned at once.  A non-zero correlation id selects the
//! asynchronous path: the call enqueues a kernel task carrying the deferred
//! operation and returns 0 immediately; the real result is announced later
//! through the completion-signal protocol.
//!
//! The process table, the descriptor table and user-memory translation are
//! collaborators: the caller resolves the descriptor (or reports it absent)
//! and translates buffers, and hands this layer plain values.

use vstd::prelude::*;

verus! {

use crate::kernel_executor::KernelTaskQueue;
use crate::kernel_fs::{AsyncClose, AsyncPipeOpen, AsyncRead, AsyncWrite, FileHandle};
use crate::kernel_task::{KernelFuture, KernelTask};
use crate::task_id::{TaskIdAllocator, id_limit};

/// Handles a write request on behalf of process `pid`: `file` is the
/// resolved descriptor entry (`None` when `fd` is out of range or vacant),
/// `buf` and `len` locate the user buffer under translation token `token`,
/// and `user_task_id` is the caller's correlation id.
///
/// An unresolved descriptor is refused with -1.  The synchronous path
/// returns the transfer verdict at once; the asynchronous path enqueues a
/// kernel task around the deferred write and returns 0.
pub fn sys_write(
    file: Option<FileHandle>,
    buf: usize,
    len: usize,
    user_task_id: usize,
    pid: usize,
    token: usize,
    queue: &mut KernelTaskQueue,
    allocator: &mut TaskIdAllocator,
) -> (r: isize)
    requires
        old(allocator).wf(),
        !old(allocator).exhausted(),
        user_task_id <= id_limit(),
    ensures
        final(allocator).wf(),
        file is None ==> r == -1 && final(queue)@ == old(queue)@ && *final(allocator) == *old(allocator),
        file matches Some(f) ==> {
            &&& user_task_id == 0 ==> r == f.transfer_result && final(queue)@ == old(queue)@
                && *final(allocator) == *old(allocator)
            &&& user_task_id != 0 ==> {
                &&& r == 0
                &&& final(queue)@ == old(queue)@.push(
                    (KernelTask {
                        id: crate::task_id::TaskId { value: old(allocator).next_id() },
                        pid,
                        user_task_id,
                        future: KernelFuture::Write(AsyncWrite { file: f, buf, len, token }),
                    }),
                )
                &&& final(allocator).next_id() == old(allocator).next_id() + 1
            }
        },
{
    match file {
        None => -1,
        Some(f) => {
            if user_task_id == 0 {
                f.transfer_result
            } else {
                let future = KernelFuture::Write(AsyncWrite::new(f, buf, len, token));
                let task = KernelTask::new(pid, user_task_id, future, allocator);
                queue.add_task(task);
                0
            }
        },
    }
}

/// Handles a read request; the same dispatch as `sys_write`, around the
/// deferred read.
pub fn sys_read(
    file: Option<FileHandle>,
    buf: usize,
    len: usize,
    user_task_id: usize,
    pid: usize,
    token: usize,
    queue: &mut KernelTaskQueue,
    allocator: &mut TaskIdAllocator,
) -> (r: isize)
    requires
        old(allocator).wf(),
        !old(allocator).exhausted(),
        user_task_id <= id_limit(),
    ensures
        final(allocator).wf(),
        file is None ==> r == -1 && final(queue)@ == old(queue)@ && *final(allocator) == *old(allocator),
        file matches Some(f) ==> {
            &&& user_task_id == 0 ==> r == f.transfer_result && final(queue)@ == old(queue)@
                && *final(allocator) == *old(allocator)
            &&& user_task_id != 0 ==> {
                &&& r == 0
                &&& final(queue)@ == old(queue)@.push(
                    (KernelTask {
                        id: crate::task_id::TaskId { value: old(allocator).next_id() },
                        pid,
                        user_task_id,
                        future: KernelFuture::Read(AsyncRead { file: f, buf, len, token }),
                    }),
                )
                &&& final(allocator).next_id() == old(allocator).next_id() + 1
            }
        },
{
    match file {
        None => -1,
        Some(f) => {
            if user_task_id == 0 {
                f.transfer_result
            } else {
                let future = KernelFuture::Read(AsyncRead::new(f, buf, len, token));
                let task = KernelTask::new(pid, user_task_id, future, allocator);
                queue.add_task(task);
                0
            }
        },
    }
}

/// Handles a close request for descriptor `fd` of process `pid`, whose
/// descriptor table has `fd_table_len` entries with `fd_open` saying whether
/// the entry is occupied.  The synchronous path validates and closes at
/// once; the asynchronous path defers the whole check to the queued task and
/// returns 0.
pub fn sys_close(
    fd: usize,
    fd_table_len: usize,
    fd_open: bool,
    user_task_id: usize,
    pid: usize,
    queue: &mut KernelTaskQueue,
    allocator: &mut TaskIdAllocator,
) -> (r: isize)
    requires
        old(allocator).wf(),
        !old(allocator).exhausted(),
        user_task_id <= id_limit(),
    ensures
        final(allocator).wf(),
        user_task_id == 0 ==> r == (if fd < fd_table_len && fd_open {
            0isize
        } else {
            -1isize
        }) && final(queue)@ == old(queue)@ && *final(allocator) == *old(allocator),
        user_task_id != 0 ==> {
            &&& r == 0
            &&& final(queue)@ == old(queue)@.push(
                KernelTask {
                    id: crate::task_id::TaskId { value: old(allocator).next_id() },
                    pid,
                    user_task_id,
                    future: KernelFuture::Close(AsyncClose { fd, fd_table_len, fd_open }),
                },
            )
            &&& final(allocator).next_id() == old(allocator).next_id() + 1
        },
{
    if user_task_id == 0 {
        if fd >= fd_table_len {
            return -1;
        }
        if !fd_open {
            return -1;
        }
        0
    } else {
        let future = KernelFuture::Close(AsyncClose { fd, fd_table_len, fd_open });
        let task = KernelTask::new(pid, user_task_id, future, allocator);
        queue.add_task(task);
        0
    }
}

/// Handles a pipe-open request: `pipe` is the user array, under translation
/// token `token`, that receives the two fresh descriptors.  Creating a pipe
/// always succeeds; the asynchronous path defers it to a queued task.
pub fn sys_pipe(
    pipe: usize,
    user_task_id: usize,
    pid: usize,
    token: usize,
    queue: &mut KernelTaskQueue,
    allocator: &mut TaskIdAllocator,
) -> (r: isize)
    requires
        old(allocator).wf(),
        !old(allocator).exhausted(),
        user_task_id <= id_limit(),
    ensures
        final(allocator).wf(),
        r == 0,
        user_task_id == 0 ==> final(queue)@ == old(queue)@ && *final(allocator) == *old(allocator),
        user_task_id != 0 ==> {
            &&& final(queue)@ == old(queue)@.push(
                KernelTask {
                    id: crate::task_id::TaskId { value: old(allocator).next_id() },
                    pid,
                    user_task_id,
                    future: KernelFuture::PipeOpen(AsyncPipeOpen { token, pipe }),
                },
            )
            &&& final(allocator).next_id() == old(allocator).next_id() + 1
        },
{
    if user_task_id == 0 {
        0
    } else {
        let future = KernelFuture::PipeOpen(AsyncPipeOpen::new(token, pipe));
        let task = KernelTask::new(pid, user_task_id, future, allocator);
        queue.add_task(task);
        0
    }
}

/// How many mails one mailbox holds at most; a full mailbox refuses writes.
pub const MAIL_CAPACITY: usize = 16;

/// Longest mail: a longer write is truncated to this many bytes.
pub const MAIL_MAX_LEN: usize = 256;

/// Per-process mailbox: a bounded queue of datagrams, read in arrival
/// order.
pub struct MailBox {
    mails: Vec<Vec<u8>>,
}

impl View for MailBox {
    type V = Seq<Seq<u8>>;

    closed spec fn view(&self) -> Seq<Seq<u8>> {
        Seq::new(self.mails@.len(), |i: int| self.mails@[i]@)
    }
}

impl MailBox {
    /// An empty mailbox.
    pub fn new() -> (m: MailBox)
        ensures
            m@ == Seq::<Seq<u8>>::empty(),
    {
        MailBox { mails: Vec::new() }
    }

    /// No mail can currently be read.
    pub fn is_empty(&self) -> (r: bool)
        ensures
            r == (self@.len() == 0),
    {
        self.mails.len() == 0
    }

    /// No further mail can currently be written.
    pub fn is_full(&self) -> (r: bool)
        ensures
            r == (self@.len() >= MAIL_CAPACITY),
    {
        self.mails.len() >= MAIL_CAPACITY
    }
}

/// Delivers the bytes of `data` as one mail into the receiving process's
/// mailbox.  A full mailbox refuses with -1; an empty write succeeds with 0
/// and delivers nothing; otherwise the first `MAIL_MAX_LEN` bytes at most
/// are delivered and their number returned.
pub fn sys_mailwrite(mailbox: &mut MailBox, data: &Vec<u8>) -> (r: isize)
    ensures
        old(mailbox)@.len() >= MAIL_CAPACITY ==> r == -1 && final(mailbox)@ == old(mailbox)@,
        old(mailbox)@.len() < MAIL_CAPACITY && data@.len() == 0 ==> r == 0 && final(mailbox)@
            == old(mailbox)@,
        old(mailbox)@.len() < MAIL_CAPACITY && data@.len() > 0 ==> {
            let n = if data@.len() < MAIL_MAX_LEN {
                data@.len() as int
            } else {
                MAIL_MAX_LEN as int
            };
            &&& r == n
            &&& final(mailbox)@ == old(mailbox)@.push(data@.subrange(0, n))
        },
{
    if mailbox.mails.len() >= MAIL_CAPACITY {
        return -1;
    }
    if data.len() == 0 {
        return 0;
    }
    let n: usize = if data.len() < MAIL_MAX_LEN {
        data.len()
    } else {
        MAIL_MAX_LEN
    };
    let mut mail: Vec<u8> = Vec::new();
    let mut i: usize = 0;
    while i < n
        invariant
            i <= n,
            n <= data@.len(),
            mail@ == data@.subrange(0, i as int),
        decreases n - i,
    {
        mail.push(data[i]);
        proof {
            assert(mail@ == data@.subrange(0, i + 1 as int));
        }
        i = i + 1;
    }
    mailbox.mails.push(mail);
    proof {
        assert(mailbox@ =~= old(mailbox)@.push(data@.subrange(0, n as int)));
    }
    n as isize
}

/// Takes the oldest mail out of the mailbox and returns up to `len` of its
/// bytes (and no more than `MAIL_MAX_LEN`); the rest of that mail is
/// discarded.  An empty mailbox refuses with -1; a zero-length read
/// succeeds with 0 and consumes nothing.
pub fn sys_mailread(mailbox: &mut MailBox, len: usize) -> (r: (isize, Vec<u8>))
    ensures
        old(mailbox)@.len() == 0 ==> r.0 == -1 && r.1@.len() == 0 && final(mailbox)@ == old(
            mailbox,
        )@,
        old(mailbox)@.len() > 0 && len == 0 ==> r.0 == 0 && r.1@.len() == 0 && final(mailbox)@
            == old(mailbox)@,
        old(mailbox)@.len() > 0 && len > 0 ==> {
            let cap = if len < MAIL_MAX_LEN {
                len as int
            } else {
                MAIL_MAX_LEN as int
            };
            let n = if old(mailbox)@[0].len() < cap {
                old(mailbox)@[0].len() as int
            } else {
                cap
            };
            &&& r.0 == n
            &&& r.1@ == old(mailbox)@[0].subrange(0, n)
            &&& final(mailbox)@ == old(mailbox)@.subrange(1, old(mailbox)@.len() as int)
        },
{
    if mailbox.mails.len() == 0 {
        return (-1, Vec::new());
    }
    if len == 0 {
        return (0, Vec::new());
    }
    let cap: usize = if len < MAIL_MAX_LEN {
        len
    } else {
        MAIL_MAX_LEN
    };
    let mail = mailbox.mails.remove(0);
    let n: usize = if mail.len() < cap {
        mail.len()
    } else {
        cap
    };
    let mut out: Vec<u8> = Vec::new();
    let mut i: usize = 0;
    while i < n
        invariant
            i <= n,
            n <= mail@.len(),
            out@ == mail@.subrange(0, i as int),
        decreases n - i,
    {
        out.push(mail[i]);
        proof {
            assert(out@ == mail@.subrange(0, i + 1 as int));
        }
        i = i + 1;
    }
    proof {
        assert(mailbox@ =~= old(mailbox)@.subrange(1, old(mailbox)@.len() as int));
    }
    (n as isize, out)
}

} // verus!
