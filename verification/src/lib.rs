//! Connection lifecycle and shutdown coordination for a concurrent TCP echo
//! service.
//!
//! The crate holds the decisions of the service and none of its I/O. A caller
//! owns the listening socket, the connections and the interrupt handler; it
//! reports what happened as plain values and carries out what the library
//! answers.
//!
//! - [`server`] is the loop that takes connections in, tracks their workers
//!   and shuts down in two steps; [`lifecycle`] states what holds of it over
//!   any sequence of events.
//! - [`worker`] is the echo loop of one connection; [`session`] and
//!   [`isolation`] state what holds of one connection and of many at once.
//! - [`registry`], [`signal`] and [`tasks`] are what the loop is made of:
//!   the identifiers of the workers in flight, the shutdown flag, and the set
//!   of pending work.
//! - [`failure`] tells which failures end the process and which end one
//!   connection.

pub mod failure;
pub mod isolation;
pub mod lifecycle;
pub mod registry;
pub mod server;
pub mod session;
pub mod signal;
pub mod tasks;
pub mod worker;
