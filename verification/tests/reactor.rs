use async_rt::reactor::{Reactor, ReactorError, TaskState};
use async_rt::signal::encode_completion;
use async_rt::task_id::TaskId;
use async_rt::trap::soft_intr_handler;

fn id(value: usize) -> TaskId {
    TaskId { value }
}

#[test]
fn register_wake_is_ready_answers_true() {
    let mut reactor = Reactor::new();
    reactor.register(id(3));
    assert!(!reactor.is_ready(id(3)));
    reactor.wake(id(3));
    assert!(reactor.is_ready(id(3)));
}

#[test]
fn waking_without_prior_register_is_a_reported_violation() {
    // Waking an unknown id is fatal by design; the interrupt path, which
    // must classify an arbitrary inbound word first, reports it.
    let mut reactor = Reactor::new();
    let r = soft_intr_handler(1, encode_completion(3), &mut reactor);
    assert_eq!(r, Err(ReactorError::UnknownTask));
    assert!(!reactor.contains_task(id(3)));
}

#[test]
fn second_wake_on_ready_is_a_reported_violation() {
    let mut reactor = Reactor::new();
    reactor.register(id(9));
    reactor.wake(id(9));
    let r = soft_intr_handler(1, encode_completion(9), &mut reactor);
    assert_eq!(r, Err(ReactorError::AlreadyWoken));
    assert!(reactor.is_ready(id(9)));
}

#[test]
fn wake_on_finish_is_a_reported_violation() {
    let mut reactor = Reactor::new();
    reactor.register(id(9));
    reactor.finish_task(id(9));
    let r = soft_intr_handler(1, encode_completion(9), &mut reactor);
    assert_eq!(r, Err(ReactorError::AlreadyWoken));
    assert!(reactor.is_finish(id(9)));
}

#[test]
fn get_task_reports_the_recorded_state() {
    let mut reactor = Reactor::new();
    assert_eq!(reactor.get_task(id(2)), None);
    reactor.register(id(2));
    assert_eq!(reactor.get_task(id(2)), Some(TaskState::NotReady));
    reactor.wake(id(2));
    assert_eq!(reactor.get_task(id(2)), Some(TaskState::Ready));
    reactor.finish_task(id(2));
    assert_eq!(reactor.get_task(id(2)), Some(TaskState::Finish));
}

#[test]
fn add_task_demotes_a_ready_entry() {
    let mut reactor = Reactor::new();
    reactor.register(id(5));
    reactor.wake(id(5));
    assert_eq!(reactor.add_task(id(5)), Some(TaskState::Ready));
    assert!(!reactor.is_ready(id(5)));
    assert_eq!(reactor.get_task(id(5)), Some(TaskState::NotReady));
}

#[test]
fn add_task_inserts_an_unknown_id() {
    let mut reactor = Reactor::new();
    assert_eq!(reactor.add_task(id(6)), None);
    assert!(reactor.contains_task(id(6)));
    assert_eq!(reactor.get_task(id(6)), Some(TaskState::NotReady));
}

#[test]
fn remove_task_deletes_the_entry() {
    let mut reactor = Reactor::new();
    reactor.register(id(7));
    assert_eq!(reactor.remove_task(id(7)), Some(TaskState::NotReady));
    assert!(!reactor.contains_task(id(7)));
    assert_eq!(reactor.remove_task(id(7)), None);
}
