use std::future::Future;
use std::sync::mpsc::{channel, Receiver, Sender};
use std::time::{Duration, Instant};

use blitz_nova::{
    event_loop_turn, handle_macro_task, BlitzMacroTask, HostData, LoopState, MacroTask,
    TaskOutcome, TimeExt, TimeoutId,
};

fn runtime() -> tokio::runtime::Runtime {
    tokio::runtime::Builder::new_multi_thread()
        .worker_threads(2)
        .enable_time()
        .build()
        .unwrap()
}

fn sleep_then_fire(
    tx: &Sender<MacroTask>,
    ms: u64,
) -> impl FnOnce(TimeoutId) -> std::pin::Pin<Box<dyn Future<Output = ()> + Send>> {
    let tx = tx.clone();
    move |id: TimeoutId| {
        Box::pin(async move {
            tokio::time::sleep(Duration::from_millis(ms)).await;
            let _ = tx.send(MacroTask::Script(BlitzMacroTask::RunAndClearTimeout(id)));
        })
    }
}

/// Runs the engine side until no envelope arrives for `idle`; returns the
/// callbacks invoked, in order.
fn run_loop(
    host: &mut HostData<&'static str>,
    rx: &Receiver<MacroTask>,
    idle: Duration,
) -> Vec<&'static str> {
    let mut invoked = Vec::new();
    while let Ok(task) = rx.recv_timeout(idle) {
        if let TaskOutcome::Run(cb) = handle_macro_task(host, task) {
            invoked.push(cb);
        }
    }
    invoked
}

#[test]
fn zero_delay_timer_fires_once() {
    let rt = runtime();
    let (tx, rx) = channel();
    let mut host = HostData::new(rt.handle().clone());
    let id = TimeExt::set_timeout(&mut host, "A", 0, sleep_then_fire(&tx, 0)).unwrap();
    assert_eq!(id.index(), 0);
    assert_eq!(host.in_flight(), 1);
    let invoked = run_loop(&mut host, &rx, Duration::from_millis(300));
    assert_eq!(invoked, vec!["A"]);
    assert_eq!(host.in_flight(), 0);
    assert!(!host.is_pending(id));
}

#[test]
fn cancelled_timer_never_fires() {
    let rt = runtime();
    let (tx, rx) = channel();
    let mut host = HostData::new(rt.handle().clone());
    let id = TimeExt::set_timeout(&mut host, "late", 1000, sleep_then_fire(&tx, 1000)).unwrap();
    tx.send(TimeExt::clear_timeout(id.index())).unwrap();
    let start = Instant::now();
    let invoked = run_loop(&mut host, &rx, Duration::from_millis(1100));
    assert!(start.elapsed() >= Duration::from_millis(1100));
    assert!(invoked.is_empty());
    assert_eq!(host.in_flight(), 0);
    assert_eq!(host.pending_timeouts(), 0);
}

#[test]
fn shorter_timer_fires_first() {
    let rt = runtime();
    let (tx, rx) = channel();
    let mut host = HostData::new(rt.handle().clone());
    TimeExt::set_timeout(&mut host, "slow", 1000, sleep_then_fire(&tx, 1000)).unwrap();
    TimeExt::set_timeout(&mut host, "fast", 10, sleep_then_fire(&tx, 10)).unwrap();
    let invoked = run_loop(&mut host, &rx, Duration::from_millis(1500));
    assert_eq!(invoked, vec!["fast", "slow"]);
    assert_eq!(host.in_flight(), 0);
}

#[test]
fn clear_unknown_id_is_harmless() {
    let rt = runtime();
    let mut host: HostData<&'static str> = HostData::new(rt.handle().clone());
    let envelope = TimeExt::clear_timeout(4242);
    assert_eq!(envelope.timeout().index(), 4242);
    assert_eq!(
        envelope,
        MacroTask::Script(BlitzMacroTask::ClearTimeout(TimeoutId::from_index(4242)))
    );
    assert_eq!(handle_macro_task(&mut host, envelope), TaskOutcome::Stale);
    assert_eq!(host.in_flight(), 0);
    assert_eq!(host.pending_timeouts(), 0);
}

#[test]
fn clear_twice_and_after_fire_change_nothing() {
    let rt = runtime();
    let (tx, rx) = channel();
    let mut host = HostData::new(rt.handle().clone());
    let kept = TimeExt::set_timeout(&mut host, "kept", 5000, sleep_then_fire(&tx, 5000)).unwrap();
    let gone = TimeExt::set_timeout(&mut host, "gone", 5000, sleep_then_fire(&tx, 5000)).unwrap();
    let fired = TimeExt::set_timeout(&mut host, "fired", 0, sleep_then_fire(&tx, 0)).unwrap();
    assert_eq!(host.in_flight(), 3);

    match handle_macro_task(&mut host, TimeExt::clear_timeout(gone.index())) {
        TaskOutcome::Release(cb, requested) => {
            assert_eq!(cb, "gone");
            assert_eq!(requested.task().index(), 1);
        }
        other => panic!("expected a release, got {other:?}"),
    }
    assert_eq!(host.in_flight(), 2);
    assert_eq!(
        handle_macro_task(&mut host, TimeExt::clear_timeout(gone.index())),
        TaskOutcome::Stale
    );
    assert_eq!(host.in_flight(), 2);

    let envelope = rx.recv_timeout(Duration::from_secs(2)).unwrap();
    assert_eq!(envelope, MacroTask::Script(BlitzMacroTask::RunAndClearTimeout(fired)));
    assert_eq!(envelope.timeout(), fired);
    assert_eq!(handle_macro_task(&mut host, envelope), TaskOutcome::Run("fired"));
    assert_eq!(host.in_flight(), 1);
    assert_eq!(
        handle_macro_task(&mut host, TimeExt::clear_timeout(fired.index())),
        TaskOutcome::Stale
    );
    assert_eq!(handle_macro_task(&mut host, envelope), TaskOutcome::Stale);
    assert_eq!(host.in_flight(), 1);
    assert!(host.is_pending(kept));
    assert_eq!(host.pending_timeouts(), 1);
}

#[test]
fn many_timers_each_fire_once() {
    let rt = runtime();
    let (tx, rx) = channel();
    let mut host = HostData::new(rt.handle().clone());
    let labels: [&'static str; 8] = ["t0", "t1", "t2", "t3", "t4", "t5", "t6", "t7"];
    let delays: [u32; 8] = [35, 5, 60, 20, 45, 10, 55, 30];
    let mut ids = Vec::new();
    for k in 0..8 {
        let id = TimeExt::set_timeout(
            &mut host,
            labels[k],
            delays[k],
            sleep_then_fire(&tx, delays[k] as u64),
        )
        .unwrap();
        ids.push(id.index());
    }
    assert_eq!(ids, vec![0, 1, 2, 3, 4, 5, 6, 7]);
    assert_eq!(host.in_flight(), 8);
    let mut invoked = run_loop(&mut host, &rx, Duration::from_millis(500));
    invoked.sort();
    assert_eq!(invoked, labels.to_vec());
    assert_eq!(host.in_flight(), 0);
    assert_eq!(host.pending_timeouts(), 0);
}

#[test]
fn stale_fire_after_cancel_is_ignored() {
    let rt = runtime();
    let (tx, rx) = channel();
    let mut host = HostData::new(rt.handle().clone());
    let id = TimeExt::set_timeout(&mut host, "raced", 0, sleep_then_fire(&tx, 0)).unwrap();
    let envelope = rx.recv_timeout(Duration::from_secs(2)).unwrap();
    let (cb, requested) = host.cancel_and_abort(id).unwrap();
    assert_eq!(cb, "raced");
    assert_eq!(requested.task().index(), 0);
    assert_eq!(handle_macro_task(&mut host, envelope), TaskOutcome::Stale);
    assert!(host.cancel_and_abort(id).is_none());
    assert_eq!(host.in_flight(), 0);
}

#[test]
fn fire_and_clear_hands_back_callback_once() {
    let rt = runtime();
    let mut host = HostData::new(rt.handle().clone());
    let id = host
        .register_timeout(25, "cb", |_id: TimeoutId| async {})
        .unwrap();
    assert!(host.is_pending(id));
    assert_eq!(host.fire_and_clear(id), Some("cb"));
    assert_eq!(host.fire_and_clear(id), None);
    assert_eq!(host.in_flight(), 0);
}

#[test]
fn in_flight_counts_fired_and_cancelled() {
    let rt = runtime();
    let (tx, rx) = channel();
    let mut host = HostData::new(rt.handle().clone());
    let a = TimeExt::set_timeout(&mut host, "a", 0, sleep_then_fire(&tx, 0)).unwrap();
    let b = TimeExt::set_timeout(&mut host, "b", 10_000, sleep_then_fire(&tx, 10_000)).unwrap();
    assert_eq!((a.index(), b.index()), (0, 1));
    assert_eq!(host.in_flight(), 2);
    tx.send(TimeExt::clear_timeout(b.index())).unwrap();
    let invoked = run_loop(&mut host, &rx, Duration::from_millis(300));
    assert_eq!(invoked, vec!["a"]);
    assert_eq!(host.in_flight(), 0);
    assert_eq!(host.pending_timeouts(), 0);
}

#[test]
fn loop_stops_when_channel_closes() {
    let rt = runtime();
    let (tx, rx) = channel();
    let mut host = HostData::new(rt.handle().clone());
    let id = TimeExt::set_timeout(&mut host, "tick", 0, sleep_then_fire(&tx, 0)).unwrap();
    drop(tx);
    let (state, outcome) = event_loop_turn(&mut host, rx.recv().ok());
    assert_eq!(state, LoopState::Running);
    assert_eq!(outcome, TaskOutcome::Run("tick"));
    assert!(!host.is_pending(id));
    let (state, outcome) = event_loop_turn(&mut host, rx.recv().ok());
    assert_eq!(state, LoopState::Stopped);
    assert_eq!(outcome, TaskOutcome::Stale);
    assert_eq!(host.in_flight(), 0);
}
