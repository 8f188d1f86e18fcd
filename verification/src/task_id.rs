//! Task identifiers and their allocator.
//!
//! A task id is an opaque, process-wide, monotonically increasing integer.
//! Only the lower half of the `usize` range is ever issued: the upper half is
//! reserved so that a completion-signal word can be told apart from an
//! ordinary message by testing it against `usize::MAX / 2`.

use vstd::prelude::*;

verus! {

/// Identifier of one suspended operation.  Unique among the live tasks of one
/// reactor; immutable once issued.
#[derive(Clone, Copy, Debug, Hash, PartialEq, Eq, PartialOrd, Ord, Structural)]
pub struct TaskId {
    pub value: usize,
}

impl View for TaskId {
    type V = usize;

    open spec fn view(&self) -> usize {
        self.value
    }
}

impl From<TaskId> for usize {
    /// The raw counter value the id was issued as.
    fn from(task_id: TaskId) -> (v: usize)
        ensures
            v == task_id@,
    {
        task_id.value
    }
}

impl vstd::std_specs::convert::FromSpecImpl<TaskId> for usize {
    open spec fn obeys_from_spec() -> bool {
        true
    }

    open spec fn from_spec(task_id: TaskId) -> usize {
        task_id.value
    }
}

impl TaskId {
    /// Draws the next id from `allocator`.
    ///
    /// The fresh id equals the allocator's counter before the call, so any
    /// sequence of calls on one allocator yields strictly increasing values.
    /// Exhaustion of the lower half of the range is fatal by design and is
    /// excluded by the precondition rather than handled.
    pub fn generate(allocator: &mut TaskIdAllocator) -> (id: TaskId)
        requires
            old(allocator).wf(),
            !old(allocator).exhausted(),
        ensures
            final(allocator).wf(),
            id@ == old(allocator).next_id(),
            id@ <= id_limit(),
            final(allocator).next_id() == old(allocator).next_id() + 1,
            final(allocator).issued() == old(allocator).issued().push(id@),
            forall|i: int|
                0 <= i < old(allocator).issued().len() ==> old(allocator).issued()[i] < id@,
    {
        let id = allocator.next;
        allocator.next = allocator.next + 1;
        proof {
            allocator.issued@ = allocator.issued@.push(id);
        }
        TaskId { value: id }
    }
}

/// Largest id that the allocator will ever issue: everything above
/// `usize::MAX / 2` is reserved for the completion-signal encoding.
pub open spec fn id_limit() -> usize {
    usize::MAX / 2
}

/// Source of task identifiers: a counter together with the (ghost) history of
/// the ids it has issued.  One allocator serves one runtime instance; the
/// counter never wraps.
pub struct TaskIdAllocator {
    next: usize,
    issued: Ghost<Seq<usize>>,
}

impl TaskIdAllocator {
    /// The counter: the id the next call of `TaskId::generate` will return.
    pub closed spec fn next_id(&self) -> usize {
        self.next
    }

    /// Every id issued so far, in order of issue.
    pub closed spec fn issued(&self) -> Seq<usize> {
        self.issued@
    }

    /// All issued ids are below the counter and were issued in strictly
    /// increasing order, so no id can ever repeat.
    pub closed spec fn wf(&self) -> bool {
        &&& forall|i: int| 0 <= i < self.issued@.len() ==> self.issued@[i] < self.next
        &&& forall|i: int, j: int|
            0 <= i < j < self.issued@.len() ==> self.issued@[i] < self.issued@[j]
    }

    /// The next draw would leave the lower half of the range: issuing more
    /// ids is a fatal error ("too many tasks").
    pub open spec fn exhausted(&self) -> bool {
        self.next_id() > id_limit()
    }

    /// A fresh allocator whose first issued id will be `first`.  The kernel
    /// instance starts at 0; a user runtime starts at 1, because a
    /// correlation id of 0 selects the synchronous syscall path.
    pub fn new(first: usize) -> (allocator: TaskIdAllocator)
        ensures
            allocator.wf(),
            allocator.next_id() == first,
            allocator.issued() == Seq::<usize>::empty(),
    {
        TaskIdAllocator { next: first, issued: Ghost(Seq::empty()) }
    }
}

/// For any sequence of `TaskId::generate` calls on one allocator, the issued
/// values are strictly increasing, and hence never repeat before exhaustion:
/// each draw returns the counter and `wf` keeps every earlier id below it.
pub proof fn lemma_issued_strictly_increasing(allocator: TaskIdAllocator, i: int, j: int)
    requires
        allocator.wf(),
        0 <= i < j < allocator.issued().len(),
    ensures
        allocator.issued()[i] < allocator.issued()[j],
        allocator.issued()[i] != allocator.issued()[j],
{
}

} // verus!
