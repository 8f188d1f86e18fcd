//! Asynchronous task/interrupt bridge for a cooperative, interrupt-driven
//! runtime split across a kernel and a user address space.
//!
//! A long-latency operation is represented as a suspended computation that is
//! resumed when an interrupt reports its completion.  The core pieces are the
//! task-identifier allocator, the reactor (a map from task id to completion
//! state), the task entities with their three-branch poll state machine, the
//! executors on both sides, and the completion-signal protocol that carries
//! "operation done" notifications across the privilege boundary as one word.

use vstd::prelude::*;

pub mod kernel_executor;
pub mod kernel_fs;
pub mod kernel_task;
pub mod reactor;
pub mod serial;
pub mod signal;
pub mod syscall;
pub mod task_id;
pub mod trap;
pub mod user_executor;
pub mod user_fs;
pub mod user_task;

verus! {

/// Result of polling a suspended computation: the final result code of the
/// operation, or not done yet.
#[derive(Clone, Copy, Debug, PartialEq, Eq, Structural)]
pub enum Poll {
    /// The operation finished with this result code.
    Ready(isize),
    /// The operation has not finished; poll again after its wake.
    Pending,
}

} // verus!
