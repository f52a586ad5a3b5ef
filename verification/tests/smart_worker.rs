use kai::worker::{settle, JoinError, SmartHandle, StatusCell, ThreadStatus, WorkOutcome};
use std::sync::mpsc::channel;

#[test]
fn status_starts_running() {
    let cell = StatusCell::new();
    assert!(cell.read().is_running());
    assert_eq!(cell.read(), ThreadStatus::Running);
}

#[test]
fn status_running_then_finished() {
    let cell = StatusCell::new();
    let (tx, rx) = channel();
    let handle: SmartHandle<i32> = SmartHandle::new(rx, cell.duplicate());
    assert!(handle.status().is_running());

    let out = WorkOutcome::Completed(7);
    cell.record(&out);
    tx.send(out).unwrap();

    assert!(handle.status().finished());
    assert_eq!(handle.join(), Ok(7));
}

#[test]
fn abort_reads_panicked_and_join_yields_error() {
    let cell = StatusCell::new();
    let (tx, rx) = channel();
    let handle: SmartHandle<i32> = SmartHandle::new(rx, cell.duplicate());

    let out = WorkOutcome::Aborted("something went wrong".to_string());
    cell.record(&out);
    tx.send(out).unwrap();

    assert!(handle.status().panicked());
    assert_eq!(
        handle.join(),
        Err(JoinError::Aborted("something went wrong".to_string()))
    );
}

#[test]
fn join_yields_forty_two_exactly() {
    let cell = StatusCell::new();
    let (tx, rx) = channel();
    let handle: SmartHandle<i32> = SmartHandle::new(rx, cell.duplicate());

    let out = WorkOutcome::Completed(42);
    cell.record(&out);
    tx.send(out).unwrap();

    assert_eq!(handle.join(), Ok(42));
}

#[test]
fn join_carries_any_value_faithfully() {
    let cell = StatusCell::new();
    let (tx, rx) = channel();
    let handle: SmartHandle<String> = SmartHandle::new(rx, cell.duplicate());

    let out = WorkOutcome::Completed("carried across".to_string());
    let recorded = cell.record(&out);
    tx.send(out).unwrap();

    assert_eq!(recorded, ThreadStatus::Finished);
    assert_eq!(handle.join(), Ok("carried across".to_string()));
}

#[test]
fn vanished_worker_joins_to_lost() {
    let cell = StatusCell::new();
    let (tx, rx) = channel::<WorkOutcome<u8>>();
    let handle: SmartHandle<u8> = SmartHandle::new(rx, cell.duplicate());
    drop(tx);

    assert_eq!(handle.join(), Err(JoinError::Lost));
}

#[test]
fn dropped_handle_leaves_status_observable() {
    let cell = StatusCell::new();
    let (tx, rx) = channel();
    let handle: SmartHandle<u8> = SmartHandle::new(rx, cell.duplicate());
    let observer = handle.observer();
    assert!(observer.read().is_running());
    drop(handle);

    let out = WorkOutcome::Completed(1);
    cell.record(&out);
    let _ = tx.send(out);

    assert!(observer.read().finished());
}

#[test]
fn status_never_leaves_terminal() {
    let cell = StatusCell::new();
    assert!(cell.read().is_running());

    cell.record(&WorkOutcome::Completed(3u8));
    assert!(cell.read().finished());

    cell.record(&WorkOutcome::Aborted::<u8>("too late".to_string()));
    assert!(cell.read().finished());
    assert!(!cell.read().panicked());
}

#[test]
fn status_walk_is_monotone() {
    let cell = StatusCell::new();
    let mut seen = Vec::new();
    seen.push(cell.read());
    seen.push(cell.read());
    cell.record(&WorkOutcome::Aborted::<u8>("gone".to_string()));
    seen.push(cell.read());
    seen.push(cell.read());
    cell.record(&WorkOutcome::Aborted::<u8>("gone again".to_string()));
    seen.push(cell.read());

    let mut left_running_at = None;
    for (i, s) in seen.iter().enumerate() {
        if !s.is_running() {
            left_running_at = Some(i);
            break;
        }
    }
    if let Some(k) = left_running_at {
        let terminal = seen[k];
        for s in &seen[k..] {
            assert_eq!(*s, terminal);
        }
    }
    assert_eq!(seen[4], ThreadStatus::Panicked);
}

#[test]
fn terminal_status_means_join_is_ready() {
    let cell = StatusCell::new();
    let (tx, rx) = channel();
    let handle: SmartHandle<u64> = SmartHandle::new(rx, cell.duplicate());

    let out = WorkOutcome::Completed(9000);
    cell.record(&out);
    tx.send(out).unwrap();

    let seen = handle.status();
    assert!(!seen.is_running());
    assert_eq!(handle.join(), Ok(9000));
}

#[test]
fn into_inner_hands_back_the_conduit() {
    let cell = StatusCell::new();
    let (tx, rx) = channel();
    let handle: SmartHandle<i8> = SmartHandle::new(rx, cell.duplicate());

    let out = WorkOutcome::Completed(-5);
    cell.record(&out);
    tx.send(out).unwrap();

    let receiver = handle.into_inner();
    assert_eq!(receiver.recv().unwrap(), WorkOutcome::Completed(-5));
}

#[test]
fn settle_translates_outcomes_exactly() {
    assert_eq!(settle(WorkOutcome::Completed(5)), Ok(5));
    assert_eq!(
        settle::<u32>(WorkOutcome::Aborted("boom".to_string())),
        Err(JoinError::Aborted("boom".to_string()))
    );
}

#[test]
fn record_returns_the_status_it_stands_for() {
    let cell = StatusCell::new();
    assert_eq!(
        cell.record(&WorkOutcome::Completed("fine".to_string())),
        ThreadStatus::Finished
    );
    let other = StatusCell::new();
    assert_eq!(
        other.record(&WorkOutcome::Aborted::<String>("bad".to_string())),
        ThreadStatus::Panicked
    );
}

#[test]
fn thread_status_predicates() {
    assert!(ThreadStatus::Running.is_running());
    assert!(!ThreadStatus::Running.finished());
    assert!(!ThreadStatus::Running.panicked());
    assert!(ThreadStatus::Finished.finished());
    assert!(!ThreadStatus::Finished.is_running());
    assert!(ThreadStatus::Panicked.panicked());
    assert!(!ThreadStatus::Panicked.finished());
    let s = ThreadStatus::Finished;
    let copy = s;
    assert_eq!(s, copy);
}
