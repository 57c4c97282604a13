//! The per-runtime state shared by the timer entry points and the event loop.

use std::future::Future;

use tokio::runtime::Handle;
use vstd::prelude::*;
use vstd::relations::injective_on;
use vstd::set_lib::{lemma_map_size, lemma_subset_equality};

use crate::task::{TaskId, TaskRegistry};
use crate::task_abort::AbortRequested;
use crate::timeout::{Timeout, TimeoutId, TimeoutsStorage};

verus! {

/// The task registry and the pending timer records of one runtime. `C` is the
/// durable reference to a callback that lives in the engine's heap.
///
/// The state pairs the two stores one to one: every pending timer is backed
/// by a live task of its own, and every live task backs a pending timer
/// (`lemma_live_tasks_back_timers`). Firing and cancelling both consume a record and its task together,
/// so a callback is handed out at most once and never after its record is
/// gone.
pub struct HostData<C> {
    tasks: TaskRegistry,
    timeouts: TimeoutsStorage<C>,
}

impl<C> HostData<C> {
    /// The pending timers, by timer index.
    pub closed spec fn timers(&self) -> Map<u32, Timeout<C>> {
        self.timeouts.records()
    }

    /// The indices of the background units of work not yet reaped.
    pub closed spec fn live_tasks(&self) -> Set<u32> {
        self.tasks.live()
    }

    /// The value of the in-flight counter.
    pub closed spec fn in_flight_count(&self) -> u32 {
        self.tasks.in_flight_count()
    }

    /// The index that the next registered timer receives.
    pub closed spec fn next_timeout_index(&self) -> u32 {
        self.timeouts.next_index()
    }

    /// The index that the next spawned task receives.
    pub closed spec fn next_task_index(&self) -> u32 {
        self.tasks.next_index()
    }

    /// Each store keeps its own invariant, and every live task is still
    /// running: a completion is reported only by the fire envelope, whose
    /// handling reaps the task at once.
    pub closed spec fn stores_wf(&self) -> bool {
        &&& self.tasks.wf()
        &&& self.timeouts.wf()
        &&& self.tasks.running() == self.tasks.live()
    }

    /// Identifiers in use lie below the counters, each pending timer's task
    /// is live and is no other timer's, the live tasks are as many as the
    /// pending timers, and the in-flight counter counts them.
    pub open spec fn wf(&self) -> bool {
        &&& self.stores_wf()
        &&& self.timers().dom().finite()
        &&& self.live_tasks().finite()
        &&& forall|i: u32| #[trigger]
            self.timers().contains_key(i) ==> i < self.next_timeout_index()
        &&& forall|t: u32| #[trigger] self.live_tasks().contains(t) ==> t < self.next_task_index()
        &&& forall|i: u32| #[trigger]
            self.timers().contains_key(i) ==> self.live_tasks().contains(self.timers()[i].task@)
        &&& forall|i: u32, j: u32|
            #![trigger self.timers()[i].task, self.timers()[j].task]
            self.timers().contains_key(i) && self.timers().contains_key(j)
                && self.timers()[i].task@ == self.timers()[j].task@ ==> i == j
        &&& self.live_tasks().len() == self.timers().len()
        &&& self.in_flight_count() as nat == self.live_tasks().len()
    }

    /// `self` is `prev` with nothing registered, fired or cancelled.
    pub open spec fn unchanged_from(&self, prev: HostData<C>) -> bool {
        &&& self.timers() == prev.timers()
        &&& self.live_tasks() == prev.live_tasks()
        &&& self.in_flight_count() == prev.in_flight_count()
        &&& self.next_timeout_index() == prev.next_timeout_index()
        &&& self.next_task_index() == prev.next_task_index()
    }

    /// `self` is `prev` with one more timer, `id`, which waits `duration_ms`,
    /// owns `callback` and is backed by a freshly spawned task.
    pub open spec fn registered_from(
        &self,
        prev: HostData<C>,
        id: TimeoutId,
        duration_ms: u64,
        callback: C,
    ) -> bool {
        &&& id@ == prev.next_timeout_index()
        &&& !prev.timers().contains_key(id@)
        &&& self.timers() == prev.timers().insert(id@, self.timers()[id@])
        &&& self.timers()[id@].duration_ms == duration_ms
        &&& self.timers()[id@].callback == callback
        &&& self.timers()[id@].task@ == prev.next_task_index()
        &&& !prev.live_tasks().contains(prev.next_task_index())
        &&& self.live_tasks() == prev.live_tasks().insert(prev.next_task_index())
        &&& self.in_flight_count() == prev.in_flight_count() + 1
        &&& self.next_timeout_index() == prev.next_timeout_index() + 1
        &&& self.next_task_index() == prev.next_task_index() + 1
    }

    /// Whether both identifier spaces still have a fresh identifier.
    pub open spec fn spec_can_register(&self) -> bool {
        self.next_timeout_index() < u32::MAX && self.next_task_index() < u32::MAX
    }

    /// A state with no timer and no task, spawning onto `runtime`.
    pub fn new(runtime: Handle) -> (r: HostData<C>)
        ensures
            r.wf(),
            r.timers() == Map::<u32, Timeout<C>>::empty(),
            r.live_tasks() == Set::<u32>::empty(),
            r.in_flight_count() == 0,
            r.next_timeout_index() == 0,
            r.next_task_index() == 0,
    {
        HostData { tasks: TaskRegistry::new(runtime), timeouts: TimeoutsStorage::new() }
    }

    /// Whether a timer can be registered.
    pub fn can_register(&self) -> (r: bool)
        ensures
            r == self.spec_can_register(),
    {
        self.timeouts.can_create() && self.tasks.can_spawn()
    }

    /// How many background units of work have neither reported completion
    /// (their fire envelope has not been handled) nor been aborted.
    pub fn in_flight(&self) -> (r: u32)
        requires
            self.wf(),
        ensures
            r == self.in_flight_count(),
            r as nat == self.timers().len(),
    {
        self.tasks.in_flight()
    }

    /// How many timers are pending.
    pub fn pending_timeouts(&self) -> (r: usize)
        requires
            self.wf(),
        ensures
            r as nat == self.timers().len(),
    {
        self.timeouts.len()
    }

    /// Whether timer `id` has neither fired nor been cancelled.
    pub fn is_pending(&self, id: TimeoutId) -> (r: bool)
        ensures
            r == self.timers().contains_key(id@),
    {
        self.timeouts.contains(id)
    }

    /// Registers a timer: stores its record under a fresh identifier and
    /// spawns the background unit of work that `work` builds for that
    /// identifier (it sleeps, then sends the fire envelope). Returns the
    /// identifier at once, or `None`, with nothing changed, when an
    /// identifier space is used up.
    pub fn register_timeout<W, F>(&mut self, duration_ms: u64, callback: C, work: W) -> (r:
        Option<TimeoutId>) where
        W: FnOnce(TimeoutId) -> F,
        F: Future<Output = ()> + Send + 'static,

        requires
            old(self).wf(),
            forall|id: TimeoutId| call_requires(work, (id,)),
        ensures
            final(self).wf(),
            r is Some <==> old(self).spec_can_register(),
            r is None ==> final(self).unchanged_from(*old(self)),
            r matches Some(id) ==> final(self).registered_from(*old(self), id, duration_ms, callback),
            r matches Some(id) ==> exists|fut: F| #[trigger] call_ensures(work, (id,), fut),
    {
        if !self.can_register() {
            return None;
        }
        let id = self.timeouts.peek_next_id();
        let future = work(id);
        let ghost spawned = future;
        let task = self.tasks.spawn(future);
        let created = self.timeouts.create(Timeout { duration_ms, callback, task });
        assert(self.timers().contains_key(created@));
        assert forall|i: u32, j: u32|
            self.timers().contains_key(i) && self.timers().contains_key(j)
                && self.timers()[i].task@ == self.timers()[j].task@ implies i == j by {
            if i != created@ {
                assert(old(self).timers().contains_key(i));
                assert(old(self).live_tasks().contains(old(self).timers()[i].task@));
            }
            if j != created@ {
                assert(old(self).timers().contains_key(j));
                assert(old(self).live_tasks().contains(old(self).timers()[j].task@));
            }
        }
        assert forall|i: u32| #[trigger]
            self.timers().contains_key(i) implies self.live_tasks().contains(
            self.timers()[i].task@,
        ) by {
            if i != created@ {
                assert(old(self).timers().contains_key(i));
            }
        }
        assert(call_ensures(work, (id,), spawned));
        Some(id)
    }

    /// Consumes the record of a timer whose fire envelope has arrived,
    /// records the completion of its backing task (the envelope is that
    /// task's report) and reaps it; hands back the callback to invoke. `None`
    /// when the record is already gone (the timer was cancelled while its
    /// envelope was in flight), with nothing changed.
    pub fn fire_and_clear(&mut self, id: TimeoutId) -> (r: Option<C>)
        requires
            old(self).wf(),
        ensures
            final(self).wf(),
            final(self).next_timeout_index() == old(self).next_timeout_index(),
            final(self).next_task_index() == old(self).next_task_index(),
            final(self).timers() == old(self).timers().remove(id@),
            r is Some <==> old(self).timers().contains_key(id@),
            r matches Some(cb) ==> {
                &&& cb == old(self).timers()[id@].callback
                &&& final(self).live_tasks() == old(self).live_tasks().remove(
                    old(self).timers()[id@].task@,
                )
                &&& final(self).in_flight_count() == old(self).in_flight_count() - 1
            },
            r is None ==> final(self).live_tasks() == old(self).live_tasks()
                && final(self).in_flight_count() == old(self).in_flight_count(),
    {
        match self.timeouts.take(id) {
            Some(record) => {
                let completed = self.tasks.complete(record.task);
                assert(completed is Ok);
                self.tasks.forget(record.task);
                proof {
                    self.lemma_consumed(*old(self), id@);
                }
                Some(record.callback)
            },
            None => None,
        }
    }

    /// Cancels a pending timer: requests the abort of its backing task and
    /// hands back its callback, which the caller releases without invoking,
    /// with the evidence of that request. `None` for an identifier that never
    /// was issued, already fired or was already cancelled, with nothing
    /// changed.
    pub fn cancel_and_abort(&mut self, id: TimeoutId) -> (r: Option<(C, AbortRequested)>)
        requires
            old(self).wf(),
        ensures
            final(self).wf(),
            final(self).next_timeout_index() == old(self).next_timeout_index(),
            final(self).next_task_index() == old(self).next_task_index(),
            final(self).timers() == old(self).timers().remove(id@),
            r is Some <==> old(self).timers().contains_key(id@),
            r matches Some((cb, requested)) ==> {
                &&& cb == old(self).timers()[id@].callback
                &&& requested@ == old(self).timers()[id@].task@
                &&& final(self).live_tasks() == old(self).live_tasks().remove(
                    old(self).timers()[id@].task@,
                )
                &&& final(self).in_flight_count() == old(self).in_flight_count() - 1
            },
            r is None ==> final(self).live_tasks() == old(self).live_tasks()
                && final(self).in_flight_count() == old(self).in_flight_count(),
    {
        match self.timeouts.take(id) {
            Some(record) => {
                let aborted = self.tasks.abort(record.task);
                match aborted {
                    Ok(requested) => {
                        proof {
                            self.lemma_consumed(*old(self), id@);
                        }
                        Some((record.callback, requested))
                    },
                    Err(_) => {
                        assert(false);
                        None
                    },
                }
            },
            None => None,
        }
    }

    /// Every live task backs a pending timer, so the registry holds no entry
    /// that firing or cancelling would leave behind.
    pub proof fn lemma_live_tasks_back_timers(&self)
        requires
            self.wf(),
        ensures
            forall|t: u32| #[trigger]
                self.live_tasks().contains(t) ==> exists|i: u32|
                    #[trigger] self.timers().contains_key(i) && self.timers()[i].task@ == t,
    {
        let dom = self.timers().dom();
        let f = |i: u32| self.timers()[i].task@;
        let backing = dom.map(f);
        assert(injective_on(f, dom)) by {
            assert forall|a: u32, b: u32|
                dom.contains(a) && dom.contains(b) && #[trigger] f(a) == #[trigger] f(b) implies a
                == b by {
                assert(self.timers()[a].task@ == self.timers()[b].task@);
            }
        }
        lemma_map_size(dom, backing, f);
        assert(backing.subset_of(self.live_tasks())) by {
            assert forall|t: u32| #[trigger] backing.contains(t) implies self.live_tasks().contains(
                t,
            ) by {
                let i = choose|i: u32| dom.contains(i) && f(i) == t;
            }
        }
        lemma_subset_equality(backing, self.live_tasks());
        assert forall|t: u32| #[trigger] self.live_tasks().contains(t) implies exists|i: u32|
            #[trigger] self.timers().contains_key(i) && self.timers()[i].task@ == t by {
            assert(backing.contains(t));
            let i = choose|i: u32| dom.contains(i) && f(i) == t;
            assert(self.timers().contains_key(i));
        }
    }

    /// The pairing of timers and tasks survives removing one timer together
    /// with its task.
    proof fn lemma_consumed(&self, prev: HostData<C>, i0: u32)
        requires
            prev.wf(),
            prev.timers().contains_key(i0),
            self.stores_wf(),
            self.timers() == prev.timers().remove(i0),
            self.live_tasks() == prev.live_tasks().remove(prev.timers()[i0].task@),
            self.in_flight_count() == prev.in_flight_count() - 1,
            self.next_timeout_index() == prev.next_timeout_index(),
            self.next_task_index() == prev.next_task_index(),
        ensures
            self.wf(),
    {
        let t0 = prev.timers()[i0].task@;
        assert forall|i: u32| #[trigger]
            self.timers().contains_key(i) implies self.live_tasks().contains(
            self.timers()[i].task@,
        ) by {
            assert(prev.timers().contains_key(i));
            assert(prev.live_tasks().contains(prev.timers()[i].task@));
            assert(prev.timers()[i].task@ != t0);
        }
        assert forall|i: u32, j: u32|
            self.timers().contains_key(i) && self.timers().contains_key(j)
                && self.timers()[i].task@ == self.timers()[j].task@ implies i == j by {
            assert(prev.timers().contains_key(i) && prev.timers().contains_key(j));
            assert(prev.timers()[i].task@ == prev.timers()[j].task@);
        }
    }
}

} // verus!
