use blitz_nova::{TaskError, TaskId, TaskRegistry};

fn runtime() -> tokio::runtime::Runtime {
    tokio::runtime::Builder::new_current_thread()
        .enable_time()
        .build()
        .unwrap()
}

#[test]
fn spawn_hands_out_increasing_ids() {
    let rt = runtime();
    let mut tasks = TaskRegistry::new(rt.handle().clone());
    assert!(tasks.can_spawn());
    let a = tasks.spawn(async {});
    let b = tasks.spawn(async {});
    assert_eq!((a.index(), b.index()), (0, 1));
    assert_eq!(tasks.in_flight(), 2);
    assert!(tasks.is_live(a) && tasks.is_live(b));
}

#[test]
fn completion_lowers_counter_once() {
    let rt = runtime();
    let mut tasks = TaskRegistry::new(rt.handle().clone());
    let a = tasks.spawn(async {});
    assert!(tasks.is_running(a));
    assert_eq!(tasks.complete(a), Ok(()));
    assert_eq!(tasks.in_flight(), 0);
    assert!(tasks.is_live(a) && !tasks.is_running(a));
    assert_eq!(tasks.complete(a), Ok(()));
    assert_eq!(tasks.in_flight(), 0);
    tasks.forget(a);
    assert_eq!(tasks.in_flight(), 0);
    assert!(!tasks.is_live(a));
    assert_eq!(tasks.complete(a), Err(TaskError::UnknownTask(a)));
}

#[test]
fn abort_of_completed_unit_keeps_counter() {
    let rt = runtime();
    let mut tasks = TaskRegistry::new(rt.handle().clone());
    let a = tasks.spawn(async {});
    let b = tasks.spawn(async {});
    assert_eq!(tasks.in_flight(), 2);
    assert_eq!(tasks.complete(a), Ok(()));
    assert_eq!(tasks.in_flight(), 1);
    assert_eq!(tasks.abort(a).map(|r| r.task()), Ok(a));
    assert_eq!(tasks.in_flight(), 1);
    assert!(!tasks.is_live(a));
    assert!(tasks.is_running(b));
}

#[test]
fn abort_removes_entry_once() {
    let rt = runtime();
    let mut tasks = TaskRegistry::new(rt.handle().clone());
    let a = tasks.spawn(async {
        tokio::time::sleep(std::time::Duration::from_secs(60)).await;
    });
    let b = tasks.spawn(async {});
    assert_eq!(tasks.abort(a).map(|r| r.task()), Ok(a));
    assert_eq!(tasks.in_flight(), 1);
    assert_eq!(tasks.abort(a).map(|r| r.task()), Err(TaskError::UnknownTask(a)));
    assert!(tasks.is_live(b));
}

#[test]
fn unknown_task_id_is_refused() {
    let rt = runtime();
    let mut tasks = TaskRegistry::new(rt.handle().clone());
    let never = TaskId::from_index(99);
    assert_eq!(never.index(), 99);
    assert_eq!(tasks.abort(never).map(|r| r.task()), Err(TaskError::UnknownTask(never)));
    assert_eq!(tasks.complete(never), Err(TaskError::UnknownTask(never)));
    assert_eq!(tasks.in_flight(), 0);
}
