//! Envelopes that cross from background work to the engine thread, and the
//! decision the event loop takes on each of them.

use vstd::prelude::*;

use crate::host_data::HostData;
use crate::task_abort::AbortRequested;
use crate::timeout::{Timeout, TimeoutId};

verus! {

/// A message carried over the cross-thread channel. It holds opaque
/// identifiers only, never a reference into the engine's heap.
#[derive(Clone, Copy, Debug, PartialEq, Eq, Structural)]
pub enum MacroTask {
    Script(BlitzMacroTask),
}

/// The timer envelopes: "fire timer `T`" and "cancel timer `T`".
#[derive(Clone, Copy, Debug, PartialEq, Eq, Structural)]
pub enum BlitzMacroTask {
    RunAndClearTimeout(TimeoutId),
    ClearTimeout(TimeoutId),
}

impl MacroTask {
    /// The timer that the envelope is about.
    pub open spec fn spec_timeout(self) -> TimeoutId {
        match self {
            MacroTask::Script(BlitzMacroTask::RunAndClearTimeout(id)) => id,
            MacroTask::Script(BlitzMacroTask::ClearTimeout(id)) => id,
        }
    }

    /// Whether the envelope reports that a timer elapsed.
    pub open spec fn is_fire(self) -> bool {
        self matches MacroTask::Script(BlitzMacroTask::RunAndClearTimeout(_))
    }

    /// The timer that the envelope is about.
    pub fn timeout(&self) -> (r: TimeoutId)
        ensures
            r == self.spec_timeout(),
    {
        match self {
            MacroTask::Script(BlitzMacroTask::RunAndClearTimeout(id)) => *id,
            MacroTask::Script(BlitzMacroTask::ClearTimeout(id)) => *id,
        }
    }
}

/// The pending timers once `task` has been handled: its timer's record is
/// gone, whether it fired or was cancelled.
pub open spec fn timers_after<C>(timers: Map<u32, Timeout<C>>, task: MacroTask) -> Map<
    u32,
    Timeout<C>,
> {
    timers.remove(task.spec_timeout()@)
}

/// The live tasks once `task` has been handled: the task behind a pending
/// record is reaped; a stale envelope changes nothing.
pub open spec fn live_after<C>(timers: Map<u32, Timeout<C>>, live: Set<u32>, task: MacroTask) -> Set<
    u32,
> {
    if timers.contains_key(task.spec_timeout()@) {
        live.remove(timers[task.spec_timeout()@].task@)
    } else {
        live
    }
}

/// The in-flight counter once `task` has been handled.
pub open spec fn in_flight_after<C>(timers: Map<u32, Timeout<C>>, n: int, task: MacroTask) -> int {
    if timers.contains_key(task.spec_timeout()@) {
        n - 1
    } else {
        n
    }
}

/// What the event loop does with the callback of the timer an envelope names.
#[derive(Debug, PartialEq, Eq)]
pub enum TaskOutcome<C> {
    /// The timer fired: invoke the callback, then release it.
    Run(C),
    /// The timer was cancelled and the abort of its task requested: release
    /// the callback without invoking it.
    Release(C, AbortRequested),
    /// The record is already gone; the envelope is stale and ignored.
    Stale,
}

/// Whether handling `task` consumes a pending record.
pub open spec fn consumes<C>(timers: Map<u32, Timeout<C>>, task: MacroTask) -> bool {
    timers.contains_key(task.spec_timeout()@)
}

/// Whether handling `task` invokes a callback: a fire envelope for a
/// pending timer.
pub open spec fn invokes<C>(timers: Map<u32, Timeout<C>>, task: MacroTask) -> bool {
    task.is_fire() && consumes(timers, task)
}

/// Whether `r` is the outcome of handling `task` while `timers` are
/// pending: the stored callback to run for a fire envelope, the stored
/// callback to release with the abort request for its task for a cancel
/// envelope, and nothing for a stale one.
pub open spec fn is_outcome<C>(r: TaskOutcome<C>, timers: Map<u32, Timeout<C>>, task: MacroTask) -> bool {
    if !consumes(timers, task) {
        r is Stale
    } else if task.is_fire() {
        r == TaskOutcome::Run(timers[task.spec_timeout()@].callback)
    } else {
        &&& r matches TaskOutcome::Release(cb, requested)
        &&& cb == timers[task.spec_timeout()@].callback
        &&& requested@ == timers[task.spec_timeout()@].task@
    }
}

/// Handles one envelope on the engine thread: a fire envelope consumes the
/// timer's record and hands back the callback to invoke; a cancel envelope
/// consumes the record, aborts its task and hands back the callback to
/// release. An envelope whose record is already gone is stale and changes
/// nothing.
pub fn handle_macro_task<C>(host: &mut HostData<C>, task: MacroTask) -> (r: TaskOutcome<C>)
    requires
        old(host).wf(),
    ensures
        final(host).wf(),
        is_outcome(r, old(host).timers(), task),
        final(host).timers() == timers_after(old(host).timers(), task),
        final(host).live_tasks() == live_after(old(host).timers(), old(host).live_tasks(), task),
        final(host).in_flight_count() == in_flight_after(
            old(host).timers(),
            old(host).in_flight_count() as int,
            task,
        ),
        final(host).next_timeout_index() == old(host).next_timeout_index(),
        final(host).next_task_index() == old(host).next_task_index(),
{
    match task {
        MacroTask::Script(BlitzMacroTask::RunAndClearTimeout(id)) => match host.fire_and_clear(id) {
            Some(cb) => TaskOutcome::Run(cb),
            None => TaskOutcome::Stale,
        },
        MacroTask::Script(BlitzMacroTask::ClearTimeout(id)) => match host.cancel_and_abort(id) {
            Some((cb, requested)) => TaskOutcome::Release(cb, requested),
            None => TaskOutcome::Stale,
        },
    }
}

/// The two states of the event loop.
#[derive(Clone, Copy, Debug, PartialEq, Eq, Structural)]
pub enum LoopState {
    /// Blocking on the channel and handling envelopes.
    Running,
    /// Every sender is gone: no envelope can arrive any more.
    Stopped,
}

/// One turn of the event loop, given what the blocking receive returned:
/// an envelope is handled and the loop keeps running; the end of the
/// stream (`None`) stops it and changes nothing.
pub fn event_loop_turn<C>(host: &mut HostData<C>, received: Option<MacroTask>) -> (r: (
    LoopState,
    TaskOutcome<C>,
))
    requires
        old(host).wf(),
    ensures
        final(host).wf(),
        match received {
            Some(task) => {
                &&& r.0 == LoopState::Running
                &&& is_outcome(r.1, old(host).timers(), task)
                &&& final(host).timers() == timers_after(old(host).timers(), task)
                &&& final(host).live_tasks() == live_after(
                    old(host).timers(),
                    old(host).live_tasks(),
                    task,
                )
                &&& final(host).in_flight_count() == in_flight_after(
                    old(host).timers(),
                    old(host).in_flight_count() as int,
                    task,
                )
            },
            None => {
                &&& r.0 == LoopState::Stopped
                &&& r.1 is Stale
                &&& final(host).unchanged_from(*old(host))
            },
        },
        final(host).next_timeout_index() == old(host).next_timeout_index(),
        final(host).next_task_index() == old(host).next_task_index(),
{
    match received {
        Some(task) => (LoopState::Running, handle_macro_task(host, task)),
        None => (LoopState::Stopped, TaskOutcome::Stale),
    }
}

/// The pending timers once every envelope of `tasks` has been handled, in
/// order.
pub open spec fn timers_after_all<C>(timers: Map<u32, Timeout<C>>, tasks: Seq<MacroTask>) -> Map<
    u32,
    Timeout<C>,
>
    decreases tasks.len(),
{
    if tasks.len() == 0 {
        timers
    } else {
        timers_after_all(timers_after(timers, tasks[0]), tasks.drop_first())
    }
}

/// The in-flight counter once every envelope of `tasks` has been handled,
/// in order.
pub open spec fn in_flight_after_all<C>(
    timers: Map<u32, Timeout<C>>,
    n: int,
    tasks: Seq<MacroTask>,
) -> int
    decreases tasks.len(),
{
    if tasks.len() == 0 {
        n
    } else {
        in_flight_after_all(
            timers_after(timers, tasks[0]),
            in_flight_after(timers, n, tasks[0]),
            tasks.drop_first(),
        )
    }
}

/// How many times the callback of timer `i` is invoked while the envelopes
/// of `tasks` are handled, in order.
pub open spec fn invocations<C>(timers: Map<u32, Timeout<C>>, tasks: Seq<MacroTask>, i: u32) -> nat
    decreases tasks.len(),
{
    if tasks.len() == 0 {
        0
    } else {
        let here: nat = if invokes(timers, tasks[0]) && tasks[0].spec_timeout()@ == i {
            1
        } else {
            0
        };
        here + invocations(timers_after(timers, tasks[0]), tasks.drop_first(), i)
    }
}

/// How many times the callback of timer `i` is handed out, to be invoked or
/// released, while the envelopes of `tasks` are handled, in order.
pub open spec fn hand_outs<C>(timers: Map<u32, Timeout<C>>, tasks: Seq<MacroTask>, i: u32) -> nat
    decreases tasks.len(),
{
    if tasks.len() == 0 {
        0
    } else {
        let here: nat = if consumes(timers, tasks[0]) && tasks[0].spec_timeout()@ == i {
            1
        } else {
            0
        };
        here + hand_outs(timers_after(timers, tasks[0]), tasks.drop_first(), i)
    }
}

/// A pending timer's callback is handed out exactly once (invoked or
/// released, never both) as soon as any envelope for the timer is handled;
/// a timer whose record is gone has nothing left to hand out.
pub proof fn lemma_handed_out_exactly_once<C>(
    timers: Map<u32, Timeout<C>>,
    tasks: Seq<MacroTask>,
    i: u32,
)
    ensures
        hand_outs(timers, tasks, i) <= 1,
        !timers.contains_key(i) ==> hand_outs(timers, tasks, i) == 0,
        timers.contains_key(i) && (exists|k: int|
            0 <= k < tasks.len() && #[trigger] tasks[k].spec_timeout()@ == i) ==> hand_outs(
            timers,
            tasks,
            i,
        ) == 1,
    decreases tasks.len(),
{
    if tasks.len() > 0 {
        let next = timers_after(timers, tasks[0]);
        let rest = tasks.drop_first();
        lemma_handed_out_exactly_once(next, rest, i);
        if tasks[0].spec_timeout()@ == i {
            assert(!next.contains_key(i));
        } else if timers.contains_key(i) && (exists|k: int|
            0 <= k < tasks.len() && #[trigger] tasks[k].spec_timeout()@ == i) {
            let k = choose|k: int| 0 <= k < tasks.len() && #[trigger] tasks[k].spec_timeout()@ == i;
            assert(rest[k - 1] == tasks[k]);
        }
    }
}

/// A callback is invoked at most once, whatever envelopes arrive and in
/// whatever order; once its timer's record is gone it is never invoked.
pub proof fn lemma_invoked_at_most_once<C>(
    timers: Map<u32, Timeout<C>>,
    tasks: Seq<MacroTask>,
    i: u32,
)
    ensures
        invocations(timers, tasks, i) <= 1,
        !timers.contains_key(i) ==> invocations(timers, tasks, i) == 0,
    decreases tasks.len(),
{
    if tasks.len() > 0 {
        let next = timers_after(timers, tasks[0]);
        lemma_invoked_at_most_once(next, tasks.drop_first(), i);
        if tasks[0].spec_timeout()@ == i {
            assert(!next.contains_key(i));
        }
    }
}

/// A pending timer whose fire envelope arrives, with no cancel envelope for
/// it before, has its callback invoked exactly once.
pub proof fn lemma_fires_exactly_once<C>(
    timers: Map<u32, Timeout<C>>,
    tasks: Seq<MacroTask>,
    i: u32,
    k: int,
)
    requires
        timers.contains_key(i),
        0 <= k < tasks.len(),
        tasks[k].is_fire(),
        tasks[k].spec_timeout()@ == i,
        forall|j: int| 0 <= j < k && #[trigger] tasks[j].spec_timeout()@ == i ==> tasks[j].is_fire(),
    ensures
        invocations(timers, tasks, i) == 1,
    decreases k,
{
    let next = timers_after(timers, tasks[0]);
    if tasks[0].spec_timeout()@ == i {
        assert(tasks[0].is_fire());
        lemma_invoked_at_most_once(next, tasks.drop_first(), i);
    } else {
        lemma_fires_exactly_once(next, tasks.drop_first(), i, k - 1);
    }
}

/// A timer whose cancel envelope is handled before any fire envelope for it
/// never has its callback invoked.
pub proof fn lemma_cancelled_never_invoked<C>(
    timers: Map<u32, Timeout<C>>,
    tasks: Seq<MacroTask>,
    i: u32,
    k: int,
)
    requires
        0 <= k < tasks.len(),
        !tasks[k].is_fire(),
        tasks[k].spec_timeout()@ == i,
        forall|j: int| 0 <= j < k && #[trigger] tasks[j].spec_timeout()@ == i ==> !tasks[j].is_fire(),
    ensures
        invocations(timers, tasks, i) == 0,
    decreases k,
{
    let next = timers_after(timers, tasks[0]);
    if tasks[0].spec_timeout()@ == i {
        lemma_invoked_at_most_once(next, tasks.drop_first(), i);
    } else {
        lemma_cancelled_never_invoked(next, tasks.drop_first(), i, k - 1);
    }
}

/// Cancelling a timer a second time, or after it fired, changes nothing and
/// hands nothing out: the records, the live tasks and the in-flight counter
/// stay as the first call left them.
pub proof fn lemma_clear_timeout_idempotent<C>(
    timers: Map<u32, Timeout<C>>,
    live: Set<u32>,
    n: int,
    id: TimeoutId,
)
    ensures
        ({
            let clear = MacroTask::Script(BlitzMacroTask::ClearTimeout(id));
            let t1 = timers_after(timers, clear);
            &&& timers_after(t1, clear) == t1
            &&& live_after(t1, live_after(timers, live, clear), clear) == live_after(
                timers,
                live,
                clear,
            )
            &&& in_flight_after(t1, in_flight_after(timers, n, clear), clear) == in_flight_after(
                timers,
                n,
                clear,
            )
            &&& !consumes(t1, clear)
        }),
        ({
            let fire = MacroTask::Script(BlitzMacroTask::RunAndClearTimeout(id));
            let clear = MacroTask::Script(BlitzMacroTask::ClearTimeout(id));
            let t1 = timers_after(timers, fire);
            &&& timers_after(t1, clear) == t1
            &&& live_after(t1, live_after(timers, live, fire), clear) == live_after(
                timers,
                live,
                fire,
            )
            &&& in_flight_after(t1, in_flight_after(timers, n, fire), clear) == in_flight_after(
                timers,
                n,
                fire,
            )
            &&& !consumes(t1, clear)
        }),
{
    let clear = MacroTask::Script(BlitzMacroTask::ClearTimeout(id));
    let fire = MacroTask::Script(BlitzMacroTask::RunAndClearTimeout(id));
    assert(timers_after(timers_after(timers, clear), clear) =~= timers_after(timers, clear));
    assert(timers_after(timers_after(timers, fire), clear) =~= timers_after(timers, fire));
}

/// Which records remain once `tasks` are handled: exactly those whose timer
/// no envelope of `tasks` names.
proof fn lemma_timers_after_all<C>(timers: Map<u32, Timeout<C>>, tasks: Seq<MacroTask>, i: u32)
    ensures
        timers_after_all(timers, tasks).contains_key(i) <==> timers.contains_key(i) && forall|
            k: int,
        |
            0 <= k < tasks.len() ==> #[trigger] tasks[k].spec_timeout()@ != i,
    decreases tasks.len(),
{
    if tasks.len() > 0 {
        let rest = tasks.drop_first();
        lemma_timers_after_all(timers_after(timers, tasks[0]), rest, i);
        if timers_after_all(timers, tasks).contains_key(i) {
            assert forall|k: int| 0 <= k < tasks.len() implies #[trigger] tasks[k].spec_timeout()@
                != i by {
                if k > 0 {
                    assert(tasks[k] == rest[k - 1]);
                }
            }
        } else if timers.contains_key(i) && tasks[0].spec_timeout()@ != i {
            let k = choose|k: int| 0 <= k < rest.len() && #[trigger] rest[k].spec_timeout()@ == i;
            assert(tasks[k + 1] == rest[k]);
        }
    }
}

/// The in-flight counter and the number of pending records fall together.
proof fn lemma_in_flight_tracks_timers<C>(
    timers: Map<u32, Timeout<C>>,
    n: int,
    tasks: Seq<MacroTask>,
)
    requires
        timers.dom().finite(),
    ensures
        timers_after_all(timers, tasks).dom().finite(),
        in_flight_after_all(timers, n, tasks) - timers_after_all(timers, tasks).len() == n
            - timers.len(),
    decreases tasks.len(),
{
    if tasks.len() > 0 {
        lemma_in_flight_tracks_timers(
            timers_after(timers, tasks[0]),
            in_flight_after(timers, n, tasks[0]),
            tasks.drop_first(),
        );
    }
}

/// Once every pending timer has had an envelope handled (it fired or was
/// cancelled), the in-flight counter is back at zero and no record is left.
pub proof fn lemma_in_flight_drains<C>(host: HostData<C>, tasks: Seq<MacroTask>)
    requires
        host.wf(),
        forall|i: u32| #[trigger]
            host.timers().contains_key(i) ==> exists|k: int|
                0 <= k < tasks.len() && #[trigger] tasks[k].spec_timeout()@ == i,
    ensures
        timers_after_all(host.timers(), tasks) == Map::<u32, Timeout<C>>::empty(),
        in_flight_after_all(host.timers(), host.in_flight_count() as int, tasks) == 0,
{
    let left = timers_after_all(host.timers(), tasks);
    assert forall|i: u32| !#[trigger] left.contains_key(i) by {
        lemma_timers_after_all(host.timers(), tasks, i);
        if host.timers().contains_key(i) {
            let k = choose|k: int| 0 <= k < tasks.len() && #[trigger] tasks[k].spec_timeout()@ == i;
        }
    }
    assert(left =~= Map::<u32, Timeout<C>>::empty());
    lemma_in_flight_tracks_timers(host.timers(), host.in_flight_count() as int, tasks);
}

} // verus!
