//! The full path of one asynchronous write: the user side issues the call
//! under correlation id 7, the kernel executor drains it and produces the
//! completion signal, the trap handler decodes the signal and wakes the
//! task, and the matching `block_on` returns.

use async_rt::kernel_executor::{KernelTaskQueue, run_until_idle};
use async_rt::kernel_fs::FileHandle;
use async_rt::reactor::Reactor;
use async_rt::syscall::sys_write;
use async_rt::task_id::{TaskId, TaskIdAllocator};
use async_rt::trap::{UserTrapRecord, user_trap_handler};
use async_rt::user_executor::block_on;
use async_rt::user_fs::{AsyncWrite, SyscallRequest};

#[test]
fn async_write_completes_across_the_boundary() {
    // User side: a write task under correlation id 7.
    let mut user_allocator = TaskIdAllocator::new(7);
    let mut user_reactor = Reactor::new();
    let mut task = AsyncWrite::new(1, 0x4000, 5, &mut user_allocator);
    assert_eq!(task.id, TaskId { value: 7 });

    // First poll: the syscall goes out with the task's id as correlation
    // token, and the task suspends.
    let (_, request) = task.poll(&mut user_reactor);
    let request = request.unwrap();
    assert_eq!(request, SyscallRequest::Write { fd: 1, buffer: 0x4000, len: 5, task_id: 7 });

    // Kernel side: dispatch the request; the async path returns 0 at once.
    let mut kernel_allocator = TaskIdAllocator::new(0);
    let mut kernel_reactor = Reactor::new();
    let mut queue = KernelTaskQueue::new();
    let (fd, buffer, len, correlation) = match request {
        SyscallRequest::Write { fd, buffer, len, task_id } => (fd, buffer, len, task_id),
        _ => unreachable!(),
    };
    assert_eq!(fd, 1);
    let file = Some(FileHandle { transfer_result: 5 });
    let immediate = sys_write(
        file,
        buffer,
        len,
        correlation,
        3,
        9,
        &mut queue,
        &mut kernel_allocator,
    );
    assert_eq!(immediate, 0);

    // The kernel executor drains the queue and completes the operation.
    let signals = run_until_idle(&mut queue, &mut kernel_reactor);
    assert_eq!(signals.len(), 1);
    let signal = signals[0];
    assert_eq!(signal.pid, 3);
    assert_eq!(signal.message, 7 + 1 + usize::MAX / 2);

    // The signal lands as a user software interrupt; the trap handler
    // decodes task id 7 and wakes it.
    let records = vec![UserTrapRecord { cause: 3 << 4, message: signal.message }];
    let _ = user_trap_handler(&records, &mut user_reactor);
    assert!(user_reactor.is_ready(TaskId { value: 7 }));

    // The matching block_on returns without spinning past the wake: the
    // inbox is empty and the next poll completes.
    let mut inbox = Vec::new();
    let mut issued = Vec::new();
    let result = block_on(task, &mut user_reactor, &mut inbox, &mut issued);
    assert_eq!(result, Some(0));
    assert!(user_reactor.is_finish(TaskId { value: 7 }));
}

#[test]
fn async_write_completes_with_the_signal_in_the_inbox() {
    // The same path, with the completion word queued for delivery during
    // the spin instead of being consumed by the trap handler up front.
    let mut user_allocator = TaskIdAllocator::new(7);
    let mut user_reactor = Reactor::new();
    let task = AsyncWrite::new(1, 0x4000, 5, &mut user_allocator);

    let mut kernel_allocator = TaskIdAllocator::new(0);
    let mut kernel_reactor = Reactor::new();
    let mut queue = KernelTaskQueue::new();
    let file = Some(FileHandle { transfer_result: 5 });
    assert_eq!(
        sys_write(file, 0x4000, 5, 7, 3, 9, &mut queue, &mut kernel_allocator),
        0
    );
    let signals = run_until_idle(&mut queue, &mut kernel_reactor);
    assert_eq!(signals.len(), 1);
    let signal = signals[0];
    assert_eq!(signal.message, 7 + 1 + usize::MAX / 2);

    let mut inbox = vec![signal.message];
    let mut issued = Vec::new();
    let result = block_on(task, &mut user_reactor, &mut inbox, &mut issued);
    assert_eq!(result, Some(0));
    assert!(inbox.is_empty());
    assert_eq!(issued.len(), 1);
}
