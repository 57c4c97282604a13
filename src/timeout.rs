//! Pending timer records, keyed by timer identifier.

use std::collections::HashMap;

use vstd::prelude::*;

use crate::task::TaskId;

verus! {

broadcast use vstd::std_specs::hash::group_hash_axioms;

/// Opaque handle of one registered timer; script code sees its index as a
/// plain number. Its numbering is independent of that of [`TaskId`].
#[derive(Clone, Copy, Debug, PartialEq, Eq, Hash, Structural)]
pub struct TimeoutId {
    index: u32,
}

impl View for TimeoutId {
    type V = u32;

    closed spec fn view(&self) -> u32 {
        self.index
    }
}

impl TimeoutId {
    pub fn from_index(index: u32) -> (r: TimeoutId)
        ensures
            r@ == index,
    {
        TimeoutId { index }
    }

    pub fn index(&self) -> (r: u32)
        ensures
            r == self@,
    {
        self.index
    }
}

/// A pending timer: how long it waits, the callback it owns until it fires
/// or is cancelled, and the background unit of work that backs it.
pub struct Timeout<C> {
    pub duration_ms: u64,
    pub callback: C,
    pub task: TaskId,
}

/// The records of the timers that have neither fired nor been cancelled.
pub struct TimeoutsStorage<C> {
    timeouts: HashMap<u32, Timeout<C>>,
    next_index: u32,
}

impl<C> TimeoutsStorage<C> {
    /// The pending records, by timer index.
    pub closed spec fn records(&self) -> Map<u32, Timeout<C>> {
        self.timeouts@
    }

    /// The index that the next registration hands out.
    pub closed spec fn next_index(&self) -> u32 {
        self.next_index
    }

    /// Every stored index lies below the next one.
    pub open spec fn wf(&self) -> bool {
        &&& self.records().dom().finite()
        &&& forall|i: u32| #[trigger] self.records().contains_key(i) ==> i < self.next_index()
    }

    /// Whether a fresh identifier is still available.
    pub open spec fn spec_can_create(&self) -> bool {
        self.next_index() < u32::MAX
    }

    /// An empty store.
    pub fn new() -> (r: TimeoutsStorage<C>)
        ensures
            r.wf(),
            r.records() == Map::<u32, Timeout<C>>::empty(),
            r.next_index() == 0,
    {
        TimeoutsStorage { timeouts: HashMap::new(), next_index: 0 }
    }

    /// Whether `create` may be called.
    pub fn can_create(&self) -> (r: bool)
        ensures
            r == self.spec_can_create(),
    {
        self.next_index < u32::MAX
    }

    /// The identifier that the next call of `create` returns.
    pub fn peek_next_id(&self) -> (r: TimeoutId)
        ensures
            r@ == self.next_index(),
    {
        TimeoutId::from_index(self.next_index)
    }

    /// How many records are stored.
    pub fn len(&self) -> (r: usize)
        requires
            self.wf(),
        ensures
            r as nat == self.records().len(),
    {
        self.timeouts.len()
    }

    /// Whether `id` has a record.
    pub fn contains(&self, id: TimeoutId) -> (r: bool)
        ensures
            r == self.records().contains_key(id@),
    {
        self.timeouts.contains_key(&id.index())
    }

    /// Stores `record` under a fresh identifier and returns that identifier.
    pub fn create(&mut self, record: Timeout<C>) -> (r: TimeoutId)
        requires
            old(self).wf(),
            old(self).spec_can_create(),
        ensures
            final(self).wf(),
            r@ == old(self).next_index(),
            !old(self).records().contains_key(r@),
            final(self).records() == old(self).records().insert(r@, record),
            final(self).next_index() == old(self).next_index() + 1,
    {
        let index = self.next_index;
        let _ = self.timeouts.insert(index, record);
        self.next_index = index + 1;
        TimeoutId::from_index(index)
    }

    /// Removes the record of `id` and hands it over; `None` when there is
    /// none.
    pub fn take(&mut self, id: TimeoutId) -> (r: Option<Timeout<C>>)
        requires
            old(self).wf(),
        ensures
            final(self).wf(),
            final(self).next_index() == old(self).next_index(),
            final(self).records() == old(self).records().remove(id@),
            match r {
                Some(record) => old(self).records().contains_key(id@)
                    && record == old(self).records()[id@],
                None => !old(self).records().contains_key(id@),
            },
    {
        self.timeouts.remove(&id.index())
    }
}

} // verus!
