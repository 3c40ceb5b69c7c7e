use echo_server::failure::{Failure, Scope};

#[test]
fn startup_failures_end_the_process() {
    assert_eq!(Failure::Bind.scope(), Scope::Startup);
    assert_eq!(Failure::SignalHandler.scope(), Scope::Startup);
    assert!(Failure::Bind.is_fatal());
    assert!(Failure::SignalHandler.is_fatal());
}

#[test]
fn accept_failure_ends_the_process() {
    assert_eq!(Failure::Accept.scope(), Scope::Listener);
    assert!(Failure::Accept.is_fatal());
}

#[test]
fn connection_failures_are_contained() {
    assert_eq!(Failure::Read.scope(), Scope::Connection);
    assert_eq!(Failure::Write.scope(), Scope::Connection);
    assert!(!Failure::Read.is_fatal());
    assert!(!Failure::Write.is_fatal());
}
