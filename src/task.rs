//! Identifiers and bookkeeping for background units of work.

use std::collections::{HashMap, HashSet};
use std::future::Future;

use tokio::runtime::Handle;
use tokio::task::{JoinError, JoinHandle};
use vstd::prelude::*;

use crate::task_abort::{request_abort, AbortRequested};

verus! {

broadcast use vstd::std_specs::hash::group_hash_axioms;

/// tokio's handle of a spawned task, held opaque: the registry only stores
/// it and asks it to abort.
#[verifier::external_type_specification]
#[verifier::external_body]
#[verifier::reject_recursive_types(T)]
pub struct ExJoinHandle<T>(JoinHandle<T>);

/// tokio's error of a failed or cancelled task; it appears only because a
/// join handle is a future of a `Result` with it. Held opaque.
#[verifier::external_type_specification]
#[verifier::external_body]
pub struct ExJoinError(JoinError);

/// tokio's handle of the background runtime, held opaque: the registry
/// only spawns through it.
#[verifier::external_type_specification]
#[verifier::external_body]
pub struct ExHandle(Handle);

/// Relies on tokio's `Handle::spawn`: hands the future to the runtime's
/// executor and returns its join handle without waiting; it does not panic.
pub assume_specification<F>[ Handle::spawn::<F> ](h: &Handle, future: F) -> JoinHandle<F::Output>
    where
        F: Future + Send + 'static,
        F::Output: Send + 'static,
;

/// Opaque handle of one spawned background unit of work.
#[derive(Clone, Copy, Debug, PartialEq, Eq, Hash, Structural)]
pub struct TaskId {
    index: u32,
}

impl View for TaskId {
    type V = u32;

    closed spec fn view(&self) -> u32 {
        self.index
    }
}

impl TaskId {
    pub fn from_index(index: u32) -> (r: TaskId)
        ensures
            r@ == index,
    {
        TaskId { index }
    }

    pub fn index(&self) -> (r: u32)
        ensures
            r == self@,
    {
        self.index
    }
}

} // verus!

verus! {

/// Failure of a registry operation: the identifier has no entry, so it was
/// never issued or was already reaped.
#[derive(Clone, Copy, Debug, PartialEq, Eq, Structural)]
pub enum TaskError {
    UnknownTask(TaskId),
}

/// Every spawned background unit of work that has not been reaped yet, by
/// identifier, with the counter of units still in flight: spawned, and
/// neither reported complete nor aborted.
pub struct TaskRegistry {
    runtime: Handle,
    tasks: HashMap<u32, JoinHandle<()>>,
    running: HashSet<u32>,
    next_index: u32,
    in_flight: u32,
}

impl TaskRegistry {
    /// Indices of the units that are spawned and not yet reaped.
    pub closed spec fn live(&self) -> Set<u32> {
        self.tasks@.dom()
    }

    /// Indices of the live units whose completion has not been reported.
    pub closed spec fn running(&self) -> Set<u32> {
        self.running@
    }

    /// The index that the next spawn hands out.
    pub closed spec fn next_index(&self) -> u32 {
        self.next_index
    }

    /// The value of the in-flight counter.
    pub closed spec fn in_flight_count(&self) -> u32 {
        self.in_flight
    }

    /// Live indices lie below the next one, every running unit is live, and
    /// the in-flight counter counts the running units.
    pub open spec fn wf(&self) -> bool {
        &&& self.live().finite()
        &&& forall|i: u32| #[trigger] self.live().contains(i) ==> i < self.next_index()
        &&& self.running().subset_of(self.live())
        &&& self.running().finite()
        &&& self.in_flight_count() as nat == self.running().len()
        &&& self.in_flight_count() <= self.next_index()
    }

    /// Whether a fresh identifier is still available.
    pub open spec fn spec_can_spawn(&self) -> bool {
        self.next_index() < u32::MAX
    }

    /// An empty registry that spawns onto `runtime`.
    pub fn new(runtime: Handle) -> (r: TaskRegistry)
        ensures
            r.wf(),
            r.live() == Set::<u32>::empty(),
            r.running() == Set::<u32>::empty(),
            r.next_index() == 0,
            r.in_flight_count() == 0,
    {
        TaskRegistry {
            runtime,
            tasks: HashMap::new(),
            running: HashSet::new(),
            next_index: 0,
            in_flight: 0,
        }
    }

    /// Whether `spawn` may be called.
    pub fn can_spawn(&self) -> (r: bool)
        ensures
            r == self.spec_can_spawn(),
    {
        self.next_index < u32::MAX
    }

    /// How many spawned units are neither reported complete nor aborted.
    pub fn in_flight(&self) -> (r: u32)
        requires
            self.wf(),
        ensures
            r == self.in_flight_count(),
            r as nat == self.running().len(),
    {
        self.in_flight
    }

    /// Whether `id` has an entry.
    pub fn is_live(&self, id: TaskId) -> (r: bool)
        ensures
            r == self.live().contains(id@),
    {
        self.tasks.contains_key(&id.index())
    }

    /// Whether `id` has an entry whose completion has not been reported.
    pub fn is_running(&self, id: TaskId) -> (r: bool)
        ensures
            r == self.running().contains(id@),
    {
        self.running.contains(&id.index())
    }

    /// Schedules `future` on the background runtime and returns a fresh
    /// identifier for it at once.
    pub fn spawn<F>(&mut self, future: F) -> (r: TaskId) where
        F: Future<Output = ()> + Send + 'static,

        requires
            old(self).wf(),
            old(self).spec_can_spawn(),
        ensures
            final(self).wf(),
            r@ == old(self).next_index(),
            !old(self).live().contains(r@),
            final(self).live() == old(self).live().insert(r@),
            final(self).running() == old(self).running().insert(r@),
            final(self).next_index() == old(self).next_index() + 1,
            final(self).in_flight_count() == old(self).in_flight_count() + 1,
    {
        let handle = self.runtime.spawn(future);
        let index = self.next_index;
        let _ = self.tasks.insert(index, handle);
        let _ = self.running.insert(index);
        self.next_index = index + 1;
        self.in_flight = self.in_flight + 1;
        TaskId::from_index(index)
    }

    /// Records that the unit `id` has completed: the in-flight counter falls
    /// the first time, and the entry stays until `forget`. Fails when `id`
    /// has no entry.
    pub fn complete(&mut self, id: TaskId) -> (r: Result<(), TaskError>)
        requires
            old(self).wf(),
        ensures
            final(self).wf(),
            final(self).next_index() == old(self).next_index(),
            final(self).live() == old(self).live(),
            r is Ok <==> old(self).live().contains(id@),
            r is Err ==> r == Err::<(), TaskError>(TaskError::UnknownTask(id)),
            final(self).running() == old(self).running().remove(id@),
            final(self).in_flight_count() == if old(self).running().contains(id@) {
                old(self).in_flight_count() - 1
            } else {
                old(self).in_flight_count() as int
            },
    {
        if !self.tasks.contains_key(&id.index()) {
            return Err(TaskError::UnknownTask(id));
        }
        if self.running.remove(&id.index()) {
            self.in_flight = self.in_flight - 1;
        }
        Ok(())
    }

    /// Requests cancellation of the unit `id` and removes its entry; the
    /// returned evidence names the unit whose abort was requested. The
    /// in-flight counter falls unless the unit's completion was already
    /// reported. Fails when `id` has no entry.
    pub fn abort(&mut self, id: TaskId) -> (r: Result<AbortRequested, TaskError>)
        requires
            old(self).wf(),
        ensures
            final(self).wf(),
            final(self).next_index() == old(self).next_index(),
            r is Ok <==> old(self).live().contains(id@),
            r matches Ok(requested) ==> requested@ == id@,
            r is Err ==> r == Err::<AbortRequested, TaskError>(TaskError::UnknownTask(id)),
            final(self).live() == old(self).live().remove(id@),
            final(self).running() == old(self).running().remove(id@),
            final(self).in_flight_count() == if old(self).running().contains(id@) {
                old(self).in_flight_count() - 1
            } else {
                old(self).in_flight_count() as int
            },
    {
        match self.tasks.remove(&id.index()) {
            Some(handle) => {
                let requested = request_abort(handle, id);
                if self.running.remove(&id.index()) {
                    self.in_flight = self.in_flight - 1;
                }
                Ok(requested)
            },
            None => {
                assert(!self.running@.contains(id@));
                Err(TaskError::UnknownTask(id))
            },
        }
    }

    /// Removes the entry of a unit whose completion has been reported,
    /// without cancelling it and without touching the in-flight counter. A
    /// unit without an entry, or still running, is a caller's defect and is
    /// ruled out.
    pub fn forget(&mut self, id: TaskId)
        requires
            old(self).wf(),
            old(self).live().contains(id@),
            !old(self).running().contains(id@),
        ensures
            final(self).wf(),
            final(self).next_index() == old(self).next_index(),
            final(self).live() == old(self).live().remove(id@),
            final(self).running() == old(self).running(),
            final(self).in_flight_count() == old(self).in_flight_count(),
    {
        let _ = self.tasks.remove(&id.index());
    }
}

} // verus!
