use echo_server::registry::WorkerSet;
use echo_server::signal::ShutdownSignal;

#[test]
fn new_worker_set_is_empty() {
    let set = WorkerSet::new();
    assert_eq!(set.len(), 0);
    assert!(set.is_empty());
    assert!(!set.contains(0));
}

#[test]
fn registered_workers_get_the_least_free_identifier() {
    let mut set = WorkerSet::new();
    assert_eq!(set.register(), 0);
    assert_eq!(set.register(), 1);
    assert_eq!(set.register(), 2);
    assert_eq!(set.len(), 3);
    assert!(set.contains(0) && set.contains(1) && set.contains(2));
    assert!(!set.contains(3));
    assert!(!set.is_empty());
}

#[test]
fn identifier_of_a_finished_worker_is_used_again() {
    let mut set = WorkerSet::new();
    for _ in 0..4 {
        set.register();
    }
    assert!(set.reap(1));
    assert!(set.reap(2));
    assert_eq!(set.len(), 2);
    assert_eq!(set.register(), 1);
    assert_eq!(set.register(), 2);
    assert_eq!(set.register(), 4);
    assert_eq!(set.len(), 5);
}

#[test]
fn reaping_takes_out_exactly_one_worker() {
    let mut set = WorkerSet::new();
    set.register();
    set.register();
    assert!(set.reap(0));
    assert!(!set.contains(0));
    assert!(set.contains(1));
    assert_eq!(set.len(), 1);
}

#[test]
fn reaping_an_unknown_worker_changes_nothing() {
    let mut set = WorkerSet::new();
    set.register();
    assert!(!set.reap(5));
    assert!(set.reap(0));
    assert!(!set.reap(0));
    assert_eq!(set.len(), 0);
    assert!(set.is_empty());
}

#[test]
fn signal_starts_unset() {
    assert!(!ShutdownSignal::new().is_terminated());
}

#[test]
fn signal_fires_once_and_is_never_reset() {
    let mut signal = ShutdownSignal::new();
    assert!(signal.fire());
    assert!(signal.is_terminated());
    assert!(!signal.fire());
    assert!(signal.is_terminated());
    assert!(!signal.fire());
    assert!(signal.is_terminated());
}
