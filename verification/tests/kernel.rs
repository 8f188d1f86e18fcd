use async_rt::Poll;
use async_rt::kernel_executor::{KernelTaskQueue, run_until_idle};
use async_rt::kernel_fs::{AsyncClose, AsyncFile, AsyncPipeOpen, AsyncRead, AsyncWrite, FileHandle};
use async_rt::kernel_task::{KernelFuture, KernelTask};
use async_rt::reactor::{Reactor, TaskState};
use async_rt::task_id::{TaskId, TaskIdAllocator};

fn write_task(allocator: &mut TaskIdAllocator, user_task_id: usize, result: isize) -> KernelTask {
    let file = FileHandle { transfer_result: result };
    let future = KernelFuture::Write(AsyncWrite::new(file, 0x1000, 4, 2));
    KernelTask::new(0, user_task_id, future, allocator)
}

#[test]
fn kernel_futures_resolve_on_first_poll() {
    let file = FileHandle { transfer_result: 11 };
    assert_eq!(AsyncRead::new(file, 0, 8, 1).poll(), Poll::Ready(11));
    assert_eq!(AsyncWrite::new(file, 0, 8, 1).poll(), Poll::Ready(11));
    assert_eq!(AsyncPipeOpen::new(1, 0x2000).poll(), Poll::Ready(0));
    let wrapped = AsyncFile::new(file);
    assert_eq!(wrapped.file.transfer_result, 11);
}

#[test]
fn async_close_checks_the_descriptor_table() {
    assert_eq!(AsyncClose { fd: 2, fd_table_len: 4, fd_open: true }.poll(), Poll::Ready(0));
    assert_eq!(AsyncClose { fd: 5, fd_table_len: 4, fd_open: true }.poll(), Poll::Ready(-1));
    assert_eq!(AsyncClose { fd: 2, fd_table_len: 4, fd_open: false }.poll(), Poll::Ready(-1));
}

#[test]
fn immediate_task_signals_but_never_registers() {
    let mut allocator = TaskIdAllocator::new(0);
    let mut reactor = Reactor::new();
    let task = write_task(&mut allocator, 7, 4);
    let (poll, signal) = task.poll(&mut reactor);
    assert_eq!(poll, Poll::Ready(0));
    let signal = signal.unwrap();
    assert_eq!(signal.pid, 0);
    assert_eq!(signal.message, 7 + 1 + usize::MAX / 2);
    assert!(!reactor.contains_task(task.id));
}

#[test]
fn registered_task_rearms_without_completing() {
    let mut allocator = TaskIdAllocator::new(0);
    let mut reactor = Reactor::new();
    let task = write_task(&mut allocator, 7, 4);
    reactor.register(task.id);
    let (poll, signal) = task.poll(&mut reactor);
    assert_eq!(poll, Poll::Pending);
    assert!(signal.is_none());
    assert_eq!(reactor.get_task(task.id), Some(TaskState::NotReady));
}

#[test]
fn woken_task_finishes_and_signals() {
    let mut allocator = TaskIdAllocator::new(0);
    let mut reactor = Reactor::new();
    let task = write_task(&mut allocator, 7, 4);
    reactor.register(task.id);
    reactor.wake(task.id);
    let (poll, signal) = task.poll(&mut reactor);
    assert_eq!(poll, Poll::Ready(task.id.value as isize));
    let signal = signal.unwrap();
    assert_eq!(signal.pid, 0);
    assert_eq!(signal.message, 7 + 1 + usize::MAX / 2);
    assert!(reactor.is_finish(task.id));
}

#[test]
fn releasing_a_task_removes_its_entry() {
    let mut allocator = TaskIdAllocator::new(0);
    let mut reactor = Reactor::new();
    let task = write_task(&mut allocator, 3, 4);
    reactor.register(task.id);
    let id = task.id;
    task.release(&mut reactor);
    assert!(!reactor.contains_task(id));
}

#[test]
fn run_until_idle_on_empty_queue_signals_nothing() {
    let mut queue = KernelTaskQueue::new();
    let mut reactor = Reactor::new();
    assert!(run_until_idle(&mut queue, &mut reactor).is_empty());
}

#[test]
fn run_until_idle_completes_a_fresh_task() {
    let mut allocator = TaskIdAllocator::new(0);
    let mut queue = KernelTaskQueue::new();
    let mut reactor = Reactor::new();
    queue.add_task(write_task(&mut allocator, 7, 4));
    let signals = run_until_idle(&mut queue, &mut reactor);
    assert_eq!(signals.len(), 1);
    assert_eq!(signals[0].message, 7 + 1 + usize::MAX / 2);
    assert_eq!(queue.len(), 0);
    assert!(run_until_idle(&mut queue, &mut reactor).is_empty());
}

#[test]
fn run_until_idle_retains_an_armed_task_and_completes_the_rest() {
    let mut allocator = TaskIdAllocator::new(0);
    let mut queue = KernelTaskQueue::new();
    let mut reactor = Reactor::new();
    let armed = write_task(&mut allocator, 5, 4);
    let armed_id = armed.id;
    reactor.register(armed.id);
    queue.add_task(armed);
    queue.add_task(write_task(&mut allocator, 8, 4));
    let signals = run_until_idle(&mut queue, &mut reactor);
    // The armed task awaits its wake and stays queued; the fresh one
    // completes within the same pass.
    assert_eq!(signals.len(), 1);
    assert_eq!(signals[0].message, 8 + 1 + usize::MAX / 2);
    assert_eq!(queue.len(), 1);
    // Once the interrupt path wakes it, the next pass completes it too.
    reactor.wake(armed_id);
    let signals = run_until_idle(&mut queue, &mut reactor);
    assert_eq!(signals.len(), 1);
    assert_eq!(signals[0].message, 5 + 1 + usize::MAX / 2);
    assert_eq!(queue.len(), 0);
    assert!(reactor.is_finish(armed_id));
}

#[test]
fn run_until_idle_finishes_a_woken_task() {
    let mut allocator = TaskIdAllocator::new(0);
    let mut queue = KernelTaskQueue::new();
    let mut reactor = Reactor::new();
    let task = write_task(&mut allocator, 9, 4);
    let id = task.id;
    reactor.register(id);
    reactor.wake(id);
    queue.add_task(task);
    let signals = run_until_idle(&mut queue, &mut reactor);
    assert_eq!(signals.len(), 1);
    assert_eq!(signals[0].message, 9 + 1 + usize::MAX / 2);
    assert!(reactor.is_finish(id));
    assert_eq!(queue.len(), 0);
}

#[test]
fn one_pass_drains_the_queue_in_arrival_order() {
    let mut allocator = TaskIdAllocator::new(0);
    let mut queue = KernelTaskQueue::new();
    let mut reactor = Reactor::new();
    queue.add_task(write_task(&mut allocator, 1, 0));
    queue.add_task(write_task(&mut allocator, 2, 0));
    queue.add_task(write_task(&mut allocator, 3, 0));
    let messages: Vec<usize> = run_until_idle(&mut queue, &mut reactor)
        .into_iter()
        .map(|signal| signal.message)
        .collect();
    assert_eq!(
        messages,
        vec![
            1 + 1 + usize::MAX / 2,
            2 + 1 + usize::MAX / 2,
            3 + 1 + usize::MAX / 2,
        ]
    );
    assert_eq!(queue.len(), 0);
}

#[test]
fn delete_task_removes_the_queued_task() {
    let mut allocator = TaskIdAllocator::new(0);
    let mut queue = KernelTaskQueue::new();
    let a = write_task(&mut allocator, 1, 0);
    let b = write_task(&mut allocator, 2, 0);
    let b_id = b.id;
    queue.add_task(a);
    queue.add_task(b);
    queue.delete_task(b_id);
    assert_eq!(queue.len(), 1);
    let front = queue.peek_task().unwrap();
    assert_eq!(front.user_task_id, 1);
}

#[test]
fn peek_task_pops_in_arrival_order() {
    let mut allocator = TaskIdAllocator::new(0);
    let mut queue = KernelTaskQueue::new();
    queue.add_task(write_task(&mut allocator, 1, 0));
    queue.add_task(write_task(&mut allocator, 2, 0));
    assert_eq!(queue.peek_task().unwrap().user_task_id, 1);
    assert_eq!(queue.peek_task().unwrap().user_task_id, 2);
    assert!(queue.peek_task().is_none());
}

#[test]
fn send_msg_stamps_the_owning_process() {
    let mut allocator = TaskIdAllocator::new(0);
    let file = FileHandle { transfer_result: 0 };
    let future = KernelFuture::Read(AsyncRead::new(file, 0, 1, 0));
    let task = KernelTask::new(12, 3, future, &mut allocator);
    let signal = task.send_msg(99);
    assert_eq!(signal.pid, 12);
    assert_eq!(signal.message, 99);
}

#[test]
fn kernel_task_ids_come_from_the_allocator() {
    let mut allocator = TaskIdAllocator::new(4);
    let a = write_task(&mut allocator, 1, 0);
    let b = write_task(&mut allocator, 1, 0);
    assert_eq!(a.id, TaskId { value: 4 });
    assert_eq!(b.id, TaskId { value: 5 });
}
