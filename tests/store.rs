use process_monitor::record::{ProviderSample, RawProcess};
use process_monitor::store::{
    check_live, kill_result, CollectError, KillOutcome, SnapshotStore, TerminationError,
};
use std::cell::Cell;

fn raw(pid: u32, name: &str) -> RawProcess {
    RawProcess {
        pid,
        name: Some(name.to_string()),
        command_line: vec![],
        environment_variables: vec![],
        owner_id: None,
        parent_pid: None,
        resident_memory_bytes: 0,
        virtual_memory_bytes: 0,
        status_code: 'R',
        start_time_unix: 0,
        run_time_seconds: 0,
        user_ticks: 0,
        system_ticks: 0,
        io_read_bytes: 0,
        io_written_bytes: 0,
    }
}

fn answer(processes: Vec<RawProcess>) -> Result<ProviderSample, CollectError> {
    Ok(ProviderSample { system_user_ticks: 0, system_sys_ticks: 0, core_count: 1, processes })
}

fn listing(store: &SnapshotStore) -> String {
    format!("{:?}", store.current_snapshot())
}

#[test]
fn refresh_respects_min_interval() {
    let calls = Cell::new(0u32);
    let mut store = SnapshotStore::new();
    let t0: u64 = 10_000;
    let q = || {
        calls.set(calls.get() + 1);
        answer(vec![raw(1, "init")])
    };
    assert_eq!(store.refresh_if_due(t0, 1000, q), Ok(true));
    let q = || {
        calls.set(calls.get() + 1);
        answer(vec![])
    };
    assert_eq!(store.refresh_if_due(t0 + 500, 1000, q), Ok(false));
    assert_eq!(calls.get(), 1);
    assert_eq!(store.current_snapshot().len(), 1);
    let q = || {
        calls.set(calls.get() + 1);
        answer(vec![])
    };
    assert_eq!(store.refresh_if_due(t0 + 1500, 1000, q), Ok(true));
    assert_eq!(calls.get(), 2);
    assert_eq!(store.current_snapshot().len(), 0);
}

#[test]
fn refresh_due_exactly_at_interval() {
    let mut store = SnapshotStore::new();
    assert!(store.is_refresh_due(0, 1000));
    assert_eq!(store.refresh_if_due(0, 1000, || answer(vec![])), Ok(true));
    assert!(!store.is_refresh_due(999, 1000));
    assert!(store.is_refresh_due(1000, 1000));
    assert!(store.is_refresh_due(u64::MAX, u64::MAX));
}

#[test]
fn failed_refresh_keeps_snapshot() {
    let mut store = SnapshotStore::new();
    assert_eq!(store.refresh_if_due(0, 1000, || answer(vec![raw(3, "b"), raw(1, "a")])), Ok(true));
    let before = listing(&store);
    let r = store.refresh_if_due(2000, 1000, || Err(CollectError::ProviderUnavailable));
    assert_eq!(r, Err(CollectError::ProviderUnavailable));
    assert_eq!(listing(&store), before);
}

#[test]
fn failed_refresh_still_waits_an_interval() {
    let mut store = SnapshotStore::new();
    let r = store.refresh_if_due(5000, 1000, || Err(CollectError::ProviderUnavailable));
    assert_eq!(r, Err(CollectError::ProviderUnavailable));
    assert!(store.current_snapshot().is_empty());
    assert!(!store.is_refresh_due(5500, 1000));
    assert!(store.is_refresh_due(6000, 1000));
}

#[test]
fn current_snapshot_is_stable_between_refreshes() {
    let mut store = SnapshotStore::new();
    store.apply_collection(0, answer(vec![raw(4, "d"), raw(2, "c")])).unwrap();
    let first = listing(&store);
    let second = listing(&store);
    assert_eq!(first, second);
}

#[test]
fn lookups_by_index_and_pid() {
    let mut store = SnapshotStore::new();
    store.apply_collection(0, answer(vec![raw(7, "zsh"), raw(3, "bash")])).unwrap();
    assert_eq!(store.process_at(0).unwrap().pid, 3);
    assert_eq!(store.process_at(1).unwrap().name, "zsh");
    assert!(store.process_at(2).is_none());
    assert_eq!(store.process_by_pid(7).unwrap().name, "zsh");
    assert!(store.process_by_pid(99).is_none());
}

#[test]
fn terminate_absent_pid_not_found() {
    let mut store = SnapshotStore::new();
    store.apply_collection(0, answer(vec![raw(7, "zsh")])).unwrap();
    let before = listing(&store);
    let killed = Cell::new(false);
    let r = store.terminate(7, || Ok(vec![1, 2, 3]), |_| {
        killed.set(true);
        KillOutcome::Killed
    });
    assert_eq!(r, Err(TerminationError::ProcessNotFound));
    assert!(!killed.get());
    assert_eq!(listing(&store), before);
}

#[test]
fn terminate_live_pid_kills() {
    let store = SnapshotStore::new();
    let target = Cell::new(0u32);
    let r = store.terminate(42, || Ok(vec![1, 42]), |p| {
        target.set(p);
        KillOutcome::Killed
    });
    assert_eq!(r, Ok(()));
    assert_eq!(target.get(), 42);
}

#[test]
fn terminate_reports_denied_and_failed() {
    let store = SnapshotStore::new();
    assert_eq!(
        store.terminate(5, || Ok(vec![5]), |_| KillOutcome::Denied),
        Err(TerminationError::PermissionDenied)
    );
    assert_eq!(
        store.terminate(5, || Ok(vec![5]), |_| KillOutcome::Failed),
        Err(TerminationError::PlatformError)
    );
    assert_eq!(
        store.terminate(5, || Err(CollectError::ProviderUnavailable), |_| KillOutcome::Killed),
        Err(TerminationError::PlatformError)
    );
}

#[test]
fn liveness_check_and_kill_results() {
    assert_eq!(check_live(&vec![3, 4], 4), Ok(()));
    assert_eq!(check_live(&vec![], 4), Err(TerminationError::ProcessNotFound));
    assert_eq!(kill_result(KillOutcome::Killed), Ok(()));
    assert_eq!(kill_result(KillOutcome::Denied), Err(TerminationError::PermissionDenied));
}
