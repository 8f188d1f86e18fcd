use async_rt::kernel_executor::{KernelTaskQueue, run_until_idle};
use async_rt::kernel_fs::FileHandle;
use async_rt::reactor::Reactor;
use async_rt::syscall::{
    MAIL_CAPACITY, MAIL_MAX_LEN, MailBox, sys_close, sys_mailread, sys_mailwrite, sys_pipe,
    sys_read, sys_write,
};
use async_rt::task_id::TaskIdAllocator;

#[test]
fn sys_write_refuses_an_unresolved_descriptor() {
    let mut queue = KernelTaskQueue::new();
    let mut allocator = TaskIdAllocator::new(0);
    let r = sys_write(None, 0x1000, 4, 7, 1, 2, &mut queue, &mut allocator);
    assert_eq!(r, -1);
    assert_eq!(queue.len(), 0);
}

#[test]
fn sys_write_synchronous_path_returns_the_verdict() {
    let mut queue = KernelTaskQueue::new();
    let mut allocator = TaskIdAllocator::new(0);
    let file = Some(FileHandle { transfer_result: 4 });
    let r = sys_write(file, 0x1000, 4, 0, 1, 2, &mut queue, &mut allocator);
    assert_eq!(r, 4);
    assert_eq!(queue.len(), 0);
}

#[test]
fn sys_write_async_path_enqueues_and_returns_zero() {
    let mut queue = KernelTaskQueue::new();
    let mut allocator = TaskIdAllocator::new(0);
    let file = Some(FileHandle { transfer_result: 4 });
    let r = sys_write(file, 0x1000, 4, 7, 1, 2, &mut queue, &mut allocator);
    assert_eq!(r, 0);
    assert_eq!(queue.len(), 1);
    let task = queue.peek_task().unwrap();
    assert_eq!(task.user_task_id, 7);
    assert_eq!(task.pid, 1);
}

#[test]
fn sys_read_dispatches_like_sys_write() {
    let mut queue = KernelTaskQueue::new();
    let mut allocator = TaskIdAllocator::new(0);
    assert_eq!(sys_read(None, 0, 4, 7, 1, 2, &mut queue, &mut allocator), -1);
    let file = Some(FileHandle { transfer_result: 9 });
    assert_eq!(sys_read(file, 0, 4, 0, 1, 2, &mut queue, &mut allocator), 9);
    assert_eq!(sys_read(file, 0, 4, 7, 1, 2, &mut queue, &mut allocator), 0);
    assert_eq!(queue.len(), 1);
}

#[test]
fn sys_close_synchronous_path_validates_the_descriptor() {
    let mut queue = KernelTaskQueue::new();
    let mut allocator = TaskIdAllocator::new(0);
    assert_eq!(sys_close(2, 4, true, 0, 1, &mut queue, &mut allocator), 0);
    assert_eq!(sys_close(9, 4, true, 0, 1, &mut queue, &mut allocator), -1);
    assert_eq!(sys_close(2, 4, false, 0, 1, &mut queue, &mut allocator), -1);
    assert_eq!(queue.len(), 0);
}

#[test]
fn sys_close_async_path_defers_the_check() {
    let mut queue = KernelTaskQueue::new();
    let mut allocator = TaskIdAllocator::new(0);
    let mut reactor = Reactor::new();
    // Even an invalid descriptor is accepted here; the queued task reports
    // the failure through its completion signal instead.
    assert_eq!(sys_close(9, 4, true, 7, 1, &mut queue, &mut allocator), 0);
    assert_eq!(queue.len(), 1);
    let signals = run_until_idle(&mut queue, &mut reactor);
    assert_eq!(signals.len(), 1);
    assert_eq!(signals[0].message, 7 + 1 + usize::MAX / 2);
}

#[test]
fn sys_pipe_always_succeeds() {
    let mut queue = KernelTaskQueue::new();
    let mut allocator = TaskIdAllocator::new(0);
    assert_eq!(sys_pipe(0x6000, 0, 1, 2, &mut queue, &mut allocator), 0);
    assert_eq!(queue.len(), 0);
    assert_eq!(sys_pipe(0x6000, 7, 1, 2, &mut queue, &mut allocator), 0);
    assert_eq!(queue.len(), 1);
}

#[test]
fn mailwrite_to_a_full_mailbox_fails() {
    let mut mailbox = MailBox::new();
    let data = vec![1u8, 2, 3];
    for _ in 0..MAIL_CAPACITY {
        assert!(sys_mailwrite(&mut mailbox, &data) > 0);
    }
    assert!(mailbox.is_full());
    assert_eq!(sys_mailwrite(&mut mailbox, &data), -1);
}

#[test]
fn mailwrite_of_nothing_returns_zero() {
    let mut mailbox = MailBox::new();
    assert_eq!(sys_mailwrite(&mut mailbox, &Vec::new()), 0);
    assert!(mailbox.is_empty());
}

#[test]
fn mailwrite_truncates_to_the_mail_limit() {
    let mut mailbox = MailBox::new();
    let data = vec![7u8; MAIL_MAX_LEN + 100];
    assert_eq!(sys_mailwrite(&mut mailbox, &data), MAIL_MAX_LEN as isize);
    let (n, bytes) = sys_mailread(&mut mailbox, MAIL_MAX_LEN + 100);
    assert_eq!(n, MAIL_MAX_LEN as isize);
    assert_eq!(bytes.len(), MAIL_MAX_LEN);
}

#[test]
fn mailread_from_an_empty_mailbox_fails() {
    let mut mailbox = MailBox::new();
    let (n, bytes) = sys_mailread(&mut mailbox, 16);
    assert_eq!(n, -1);
    assert!(bytes.is_empty());
}

#[test]
fn mailread_of_nothing_returns_zero_and_keeps_the_mail() {
    let mut mailbox = MailBox::new();
    sys_mailwrite(&mut mailbox, &vec![5u8, 6]);
    let (n, bytes) = sys_mailread(&mut mailbox, 0);
    assert_eq!(n, 0);
    assert!(bytes.is_empty());
    assert!(!mailbox.is_empty());
}

#[test]
fn mail_round_trips_in_arrival_order() {
    let mut mailbox = MailBox::new();
    assert_eq!(sys_mailwrite(&mut mailbox, &vec![1u8, 2, 3]), 3);
    assert_eq!(sys_mailwrite(&mut mailbox, &vec![9u8]), 1);
    let (n, bytes) = sys_mailread(&mut mailbox, 16);
    assert_eq!(n, 3);
    assert_eq!(bytes, vec![1u8, 2, 3]);
    let (n, bytes) = sys_mailread(&mut mailbox, 16);
    assert_eq!(n, 1);
    assert_eq!(bytes, vec![9u8]);
    assert!(mailbox.is_empty());
}

#[test]
fn mailread_shorter_than_the_mail_discards_the_rest() {
    let mut mailbox = MailBox::new();
    assert_eq!(sys_mailwrite(&mut mailbox, &vec![1u8, 2, 3, 4]), 4);
    let (n, bytes) = sys_mailread(&mut mailbox, 2);
    assert_eq!(n, 2);
    assert_eq!(bytes, vec![1u8, 2]);
    assert!(mailbox.is_empty());
}
