//! What can go wrong, and how far each failure reaches.
//!
//! No failure is retried. A failure on one connection ends that connection's
//! worker and nothing else; a failure at startup, or of the listener while it
//! takes a connection in, ends the process.

use vstd::prelude::*;

verus! {

/// A failure of the service.
#[derive(Clone, Copy, PartialEq, Eq, Debug)]
pub enum Failure {
    /// The listening socket could not be bound.
    Bind,
    /// The handler for the interrupt signal could not be installed.
    SignalHandler,
    /// A connection that the listener took could not be finalised.
    Accept,
    /// A read on a connection failed.
    Read,
    /// A write on a connection failed.
    Write,
}

/// Where a failure arises.
#[derive(Clone, Copy, PartialEq, Eq, Debug)]
pub enum Scope {
    /// Before the service takes its first connection.
    Startup,
    /// In the listener, while it serves.
    Listener,
    /// On one connection.
    Connection,
}

/// The scope of each failure.
pub open spec fn scope_of(failure: Failure) -> Scope {
    match failure {
        Failure::Bind | Failure::SignalHandler => Scope::Startup,
        Failure::Accept => Scope::Listener,
        Failure::Read | Failure::Write => Scope::Connection,
    }
}

/// Whether a failure ends the process: all do but those on one connection.
pub open spec fn ends_process(failure: Failure) -> bool {
    scope_of(failure) != Scope::Connection
}

impl Failure {
    /// Where this failure arises.
    pub fn scope(self) -> (scope: Scope)
        ensures
            scope == scope_of(self),
    {
        match self {
            Failure::Bind => Scope::Startup,
            Failure::SignalHandler => Scope::Startup,
            Failure::Accept => Scope::Listener,
            Failure::Read => Scope::Connection,
            Failure::Write => Scope::Connection,
        }
    }

    /// Whether this failure ends the process. A failure on one connection is
    /// contained: it ends that connection's worker only.
    pub fn is_fatal(self) -> (fatal: bool)
        ensures
            fatal == ends_process(self),
            fatal == !(self == Failure::Read || self == Failure::Write),
    {
        match self {
            Failure::Read => false,
            Failure::Write => false,
            _ => true,
        }
    }
}

} // verus!
