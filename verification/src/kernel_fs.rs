//! Kernel-side operation futures: the deferred units of work behind the
//! asynchronous read, write, close and pipe-open syscalls.
//!
//! The kernel already holds the file table and the address translation when
//! one of these is polled, so every one of them executes its operation the
//! instant it is polled and resolves on the first poll; suspension for
//! resources that are not yet ready happens one layer up, at the task level,
//! and is not exercised by these four built-in operations.
//!
//! The file abstraction, the descriptor table and user-memory translation
//! are collaborators outside this crate: what this core reads of them is
//! carried in plain values (`FileHandle`, table length, entry presence), and
//! the verdict a transfer produces is fixed when the future is built.

use vstd::prelude::*;

verus! {

use crate::Poll;

/// What the core reads of one open file-table entry: the verdict that the
/// file and memory layers return for the requested transfer, as the usual
/// result code (bytes moved, or a negative code when the descriptor, the
/// translation or the transfer fails).  The file object itself stays with
/// its collaborating layer.
#[derive(Clone, Copy, Debug, PartialEq, Eq, Structural)]
pub struct FileHandle {
    pub transfer_result: isize,
}

/// A file wrapped for asynchronous use.
pub struct AsyncFile {
    pub file: FileHandle,
}

impl AsyncFile {
    /// Wraps `file` for asynchronous use.
    pub fn new(file: FileHandle) -> (r: AsyncFile)
        ensures
            r.file == file,
    {
        AsyncFile { file }
    }
}

/// Deferred read of `len` bytes into the user buffer at `buf`, translated
/// under `token`.
pub struct AsyncRead {
    pub file: FileHandle,
    pub buf: usize,
    pub len: usize,
    pub token: usize,
}

impl AsyncRead {
    /// A read future over an open file-table entry.
    pub fn new(file: FileHandle, buf: usize, len: usize, token: usize) -> (r: AsyncRead)
        ensures
            r == (AsyncRead { file, buf, len, token }),
    {
        AsyncRead { file, buf, len, token }
    }

    /// Executes the read: translates the buffer and moves the bytes, both in
    /// the collaborating layers, and resolves immediately with their verdict.
    pub fn poll(&self) -> (r: Poll)
        ensures
            r == Poll::Ready(self.file.transfer_result),
    {
        Poll::Ready(self.file.transfer_result)
    }
}

/// Deferred write of `len` bytes from the user buffer at `buf`, translated
/// under `token`.
pub struct AsyncWrite {
    pub file: FileHandle,
    pub buf: usize,
    pub len: usize,
    pub token: usize,
}

impl AsyncWrite {
    /// A write future over an open file-table entry.
    pub fn new(file: FileHandle, buf: usize, len: usize, token: usize) -> (r: AsyncWrite)
        ensures
            r == (AsyncWrite { file, buf, len, token }),
    {
        AsyncWrite { file, buf, len, token }
    }

    /// Executes the write and resolves immediately with the collaborating
    /// layers' verdict.
    pub fn poll(&self) -> (r: Poll)
        ensures
            r == Poll::Ready(self.file.transfer_result),
    {
        Poll::Ready(self.file.transfer_result)
    }
}

/// Deferred close of descriptor `fd`.  What the core reads of the process's
/// descriptor table is its length and whether the entry is occupied.
pub struct AsyncClose {
    pub fd: usize,
    pub fd_table_len: usize,
    pub fd_open: bool,
}

impl AsyncClose {
    /// What the close reports: 0 for an occupied in-range descriptor, whose entry
    /// the descriptor table then vacates, and -1 otherwise.
    pub open spec fn spec_result(&self) -> isize {
        if self.fd < self.fd_table_len && self.fd_open {
            0isize
        } else {
            -1isize
        }
    }

    /// Executes the close and resolves immediately.
    pub fn poll(&self) -> (r: Poll)
        ensures
            r == Poll::Ready(self.spec_result()),
    {
        if self.fd >= self.fd_table_len {
            return Poll::Ready(-1);
        }
        if !self.fd_open {
            return Poll::Ready(-1);
        }
        Poll::Ready(0)
    }
}

/// Deferred opening of a pipe: the collaborating layers create the pipe,
/// allocate its two descriptors and write them to the user array at `pipe`
/// under `token`; this always succeeds.
pub struct AsyncPipeOpen {
    pub token: usize,
    pub pipe: usize,
}

impl AsyncPipeOpen {
    /// A pipe-open future for the user array at `pipe`.
    pub fn new(token: usize, pipe: usize) -> (r: AsyncPipeOpen)
        ensures
            r == (AsyncPipeOpen { token, pipe }),
    {
        AsyncPipeOpen { token, pipe }
    }

    /// Creates the pipe and resolves immediately with success.
    pub fn poll(&self) -> (r: Poll)
        ensures
            r == Poll::Ready(0isize),
    {
        Poll::Ready(0)
    }
}

} // verus!
