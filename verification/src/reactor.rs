//! The reactor: per-task completion state, keyed by task id.
//!
//! One reactor serves one runtime instance (the kernel holds one per served
//! process, a user runtime holds its own).  The interrupt-delivery path
//! writes it and the scheduler path reads it; both run on one hardware
//! thread, so the map is owned by the runtime and threaded through calls
//! rather than shared behind a lock.
//!
//! Double registration, waking an unknown id, waking an id twice and
//! finishing an unknown id are protocol violations: fatal by design, never
//! recoverable conditions.  A verified function cannot halt, so the mutating
//! operations exclude those inputs by precondition and the obligation falls
//! on the caller; the interrupt path, which must classify an arbitrary
//! inbound word before it may wake, checks first and reports a violation as
//! a `ReactorError`.

use std::collections::BTreeMap;
use vstd::prelude::*;

verus! {

use crate::task_id::TaskId;

broadcast use vstd::std_specs::btree::group_btree_axioms, vstd::laws_cmp::group_laws_cmp;

/// Completion state of one registered task.
#[derive(Clone, Copy, Debug, PartialEq, Eq, Structural)]
pub enum TaskState {
    /// An event was signalled and has not yet been consumed by a poll.
    Ready,
    /// Registered and awaiting an external event.
    NotReady,
    /// Terminal: no further transition is legal.
    Finish,
}

/// A caller broke the reactor protocol.  These conditions are fatal by
/// design; the paths that must classify untrusted input first (the trap
/// handlers) report them with the reactor unchanged.
#[derive(Clone, Copy, Debug, PartialEq, Eq, Structural)]
pub enum ReactorError {
    /// The id is not registered.
    UnknownTask,
    /// The id is already registered.
    AlreadyRegistered,
    /// The id is already `Ready` or `Finish`, so a second wake is illegal.
    AlreadyWoken,
}

/// The registration transition: the updated state map, or the protocol
/// violation a second registration would be.
pub open spec fn spec_register(m: Map<usize, TaskState>, id: usize) -> Result<
    Map<usize, TaskState>,
    ReactorError,
> {
    if m.contains_key(id) {
        Err(ReactorError::AlreadyRegistered)
    } else {
        Ok(m.insert(id, TaskState::NotReady))
    }
}

/// What `Reactor::wake` leaves behind: `NotReady` becomes `Ready`; an absent
/// id and a second wake are protocol violations.
pub open spec fn spec_wake(m: Map<usize, TaskState>, id: usize) -> Result<
    Map<usize, TaskState>,
    ReactorError,
> {
    if !m.contains_key(id) {
        Err(ReactorError::UnknownTask)
    } else if m[id] is NotReady {
        Ok(m.insert(id, TaskState::Ready))
    } else {
        Err(ReactorError::AlreadyWoken)
    }
}

/// What `Reactor::finish_task` leaves behind: a present id is forced to
/// `Finish`, whatever its current state.
pub open spec fn spec_finish(m: Map<usize, TaskState>, id: usize) -> Result<
    Map<usize, TaskState>,
    ReactorError,
> {
    if m.contains_key(id) {
        Ok(m.insert(id, TaskState::Finish))
    } else {
        Err(ReactorError::UnknownTask)
    }
}

/// Whether a poll of task `id` may consume an event.
pub open spec fn spec_is_ready(m: Map<usize, TaskState>, id: usize) -> bool {
    m.contains_key(id) && m[id] is Ready
}

/// Whether task `id` has reached its terminal state.
pub open spec fn spec_is_finish(m: Map<usize, TaskState>, id: usize) -> bool {
    m.contains_key(id) && m[id] is Finish
}

/// Map from task id to completion state, shared by every task issued on
/// behalf of one logical owner.
pub struct Reactor {
    tasks: BTreeMap<usize, TaskState>,
}

impl View for Reactor {
    type V = Map<usize, TaskState>;

    closed spec fn view(&self) -> Map<usize, TaskState> {
        self.tasks@
    }
}

impl Reactor {
    /// An empty reactor: no task is registered.
    pub fn new() -> (reactor: Reactor)
        ensures
            reactor@ == Map::<usize, TaskState>::empty(),
    {
        Reactor { tasks: BTreeMap::new() }
    }

    /// Inserts `id` as `NotReady`.  Registering an id twice is a fatal
    /// protocol violation — only one path ever registers a given task — so
    /// the precondition makes it the caller's obligation.
    pub fn register(&mut self, id: TaskId)
        requires
            !old(self)@.contains_key(id@),
        ensures
            final(self)@ == old(self)@.insert(id@, TaskState::NotReady),
    {
        self.tasks.insert(id.value, TaskState::NotReady);
    }

    /// Marks `id` as `Ready`: its awaited event has been signalled.  Called
    /// only from the interrupt-delivery path.  Waking an unregistered id, or
    /// one that is already `Ready` or `Finish`, is a fatal protocol
    /// violation, so the precondition admits exactly the legal wake; the
    /// interrupt path classifies an inbound word against `spec_wake` before
    /// calling (see `trap::soft_intr_handler`).
    pub fn wake(&mut self, id: TaskId)
        requires
            spec_wake(old(self)@, id@) is Ok,
        ensures
            final(self)@ == old(self)@.insert(id@, TaskState::Ready),
            Ok::<Map<usize, TaskState>, ReactorError>(final(self)@) == spec_wake(
                old(self)@,
                id@,
            ),
    {
        self.tasks.insert(id.value, TaskState::Ready);
    }

    /// Whether a poll of `id` may consume an event now.
    pub fn is_ready(&self, id: TaskId) -> (r: bool)
        ensures
            r == spec_is_ready(self@, id@),
    {
        match self.tasks.get(&id.value) {
            Some(state) => match state {
                TaskState::Ready => true,
                _ => false,
            },
            None => false,
        }
    }

    /// Whether `id` has reached its terminal state.
    pub fn is_finish(&self, id: TaskId) -> (r: bool)
        ensures
            r == spec_is_finish(self@, id@),
    {
        match self.tasks.get(&id.value) {
            Some(state) => match state {
                TaskState::Finish => true,
                _ => false,
            },
            None => false,
        }
    }

    /// The state recorded for `id`, if any.
    pub fn get_task(&self, task_id: TaskId) -> (r: Option<TaskState>)
        ensures
            match r {
                Some(s) => self@.contains_key(task_id@) && s == self@[task_id@],
                None => !self@.contains_key(task_id@),
            },
    {
        match self.tasks.get(&task_id.value) {
            Some(state) => Some(*state),
            None => None,
        }
    }

    /// Unconditionally (re)inserts `task_id` as `NotReady` and returns the
    /// state it replaced.  This both requeues a task that is awaiting its
    /// wake and, called on a `Ready` entry, demotes it back to `NotReady`; a
    /// deliberate but fragile overload, so executors decide the three-way
    /// requeue case explicitly before calling it.
    pub fn add_task(&mut self, task_id: TaskId) -> (r: Option<TaskState>)
        ensures
            final(self)@ == old(self)@.insert(task_id@, TaskState::NotReady),
            match r {
                Some(s) => old(self)@.contains_key(task_id@) && s == old(self)@[task_id@],
                None => !old(self)@.contains_key(task_id@),
            },
    {
        self.tasks.insert(task_id.value, TaskState::NotReady)
    }

    /// Whether `task_id` is registered, in whatever state.
    pub fn contains_task(&self, task_id: TaskId) -> (r: bool)
        ensures
            r == self@.contains_key(task_id@),
    {
        self.tasks.contains_key(&task_id.value)
    }

    /// Forces `task_id` to `Finish` once its wrapped computation has
    /// completed.  Distinct from "event happened" readiness: a task can be
    /// externally `Ready` while its computation still has work left.
    /// Finishing an id the reactor does not know is a fatal protocol
    /// violation, excluded here.
    pub fn finish_task(&mut self, task_id: TaskId)
        requires
            old(self)@.contains_key(task_id@),
        ensures
            final(self)@ == old(self)@.insert(task_id@, TaskState::Finish),
            Ok::<Map<usize, TaskState>, ReactorError>(final(self)@) == spec_finish(
                old(self)@,
                task_id@,
            ),
    {
        self.tasks.insert(task_id.value, TaskState::Finish);
    }

    /// Deletes the entry of `task_id`, whatever its state, and returns it.
    /// Called when the owning task is dropped.
    pub fn remove_task(&mut self, task_id: TaskId) -> (r: Option<TaskState>)
        ensures
            final(self)@ == old(self)@.remove(task_id@),
            match r {
                Some(s) => old(self)@.contains_key(task_id@) && s == old(self)@[task_id@],
                None => !old(self)@.contains_key(task_id@),
            },
    {
        self.tasks.remove(&task_id.value)
    }
}

/// Registering a fresh id and then waking it leaves the id observably ready:
/// `register` then `wake` then `is_ready` answers true.
pub proof fn lemma_register_then_wake_is_ready(m: Map<usize, TaskState>, id: usize)
    requires
        !m.contains_key(id),
    ensures
        spec_register(m, id) matches Ok(m1) && spec_wake(m1, id) matches Ok(m2) && spec_is_ready(
            m2,
            id,
        ),
{
}

/// A wake with no prior registration fails, and leaves the map unchanged.
pub proof fn lemma_wake_without_register_fails(m: Map<usize, TaskState>, id: usize)
    requires
        !m.contains_key(id),
    ensures
        spec_wake(m, id) == Err::<Map<usize, TaskState>, ReactorError>(ReactorError::UnknownTask),
{
}

/// A second wake on an id that is already `Ready` or `Finish` fails.
pub proof fn lemma_second_wake_fails(m: Map<usize, TaskState>, id: usize)
    requires
        m.contains_key(id),
        m[id] is Ready || m[id] is Finish,
    ensures
        spec_wake(m, id) == Err::<Map<usize, TaskState>, ReactorError>(ReactorError::AlreadyWoken),
{
}

/// In particular, a wake that succeeded can never succeed again on the same
/// id: the first wake left the id `Ready`.
pub proof fn lemma_wake_is_at_most_once(m: Map<usize, TaskState>, id: usize)
    requires
        spec_wake(m, id) is Ok,
    ensures
        spec_wake(spec_wake(m, id)->Ok_0, id) == Err::<Map<usize, TaskState>, ReactorError>(
            ReactorError::AlreadyWoken,
        ),
{
}

} // verus!
