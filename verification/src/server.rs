//! The server loop: serving, draining, terminated.
//!
//! The loop multiplexes three sources: the shutdown signal, the listening
//! socket and the task set. Whatever becomes ready first is reported here as
//! an [`Event`]; the loop moves to its next state and answers with the
//! [`Action`] that the caller is to carry out. Shutdown has two steps: the
//! listener is closed, and the workers that are in flight are waited for. A
//! signal that arrives during the wait ends it at once.
//!
//! A worker is in flight from the event that takes its connection in to the
//! event that reports it finished. Its work is in the task set, which the
//! loop owns: the loop puts the work in when it takes the connection in, and
//! the caller polls the set, which runs the work and hands the worker out
//! when it has run to its end.

use crate::failure::Failure;
use crate::registry::{is_least_free, least_free, WorkerSet};
use crate::signal::ShutdownSignal;
use crate::tasks::{count_tasks, held, new_tasks, push_work};
use futures::stream::FuturesUnordered;
use futures::task::LocalFutureObj;
use vstd::multiset::Multiset;
use vstd::prelude::*;

verus! {

/// The state of the server loop.
#[derive(Clone, Copy, PartialEq, Eq, Debug)]
pub enum Phase {
    /// The listener is open and connections are taken in.
    Serving,
    /// The listener is closed; the workers in flight are waited for.
    Draining,
    /// The loop has ended.
    Terminated,
}

/// What the multiplexer reports, as a mathematical value.
#[derive(Clone, Copy, PartialEq, Eq, Debug)]
pub enum EventKind {
    /// The shutdown signal fired.
    Shutdown,
    /// The listener took a connection.
    Accepted,
    /// The listener took a connection and could not finalise it.
    AcceptFailed,
    /// The listener will take no further connection.
    ListenerClosed,
    /// The worker with this identifier ran to its end.
    WorkerFinished(usize),
    /// The task set was polled and holds no work at all.
    WorkersIdle,
    /// No source is left to wait on.
    Quiescent,
}

/// What the multiplexer reports. Its view is an [`EventKind`].
pub enum Event {
    /// The shutdown signal fired.
    Shutdown,
    /// The listener took a connection. The work is the echo loop of that
    /// connection; it owns the connection and releases it at its end.
    Accepted(LocalFutureObj<'static, ()>),
    /// The listener took a connection and could not finalise it.
    AcceptFailed,
    /// The listener will take no further connection.
    ListenerClosed,
    /// The worker with this identifier ran to its end.
    WorkerFinished(usize),
    /// The task set was polled and holds no work at all.
    WorkersIdle,
    /// No source is left to wait on.
    Quiescent,
}

impl View for Event {
    type V = EventKind;

    open spec fn view(&self) -> EventKind {
        match self {
            Event::Shutdown => EventKind::Shutdown,
            Event::Accepted(_) => EventKind::Accepted,
            Event::AcceptFailed => EventKind::AcceptFailed,
            Event::ListenerClosed => EventKind::ListenerClosed,
            Event::WorkerFinished(id) => EventKind::WorkerFinished(*id),
            Event::WorkersIdle => EventKind::WorkersIdle,
            Event::Quiescent => EventKind::Quiescent,
        }
    }
}

impl Event {
    /// What a poll of the task set reports: the worker that it hands out as
    /// finished, or that it holds no work.
    pub fn polled(finished: Option<((), usize)>) -> (event: Event)
        ensures
            event@ == match finished {
                Some(((), id)) => EventKind::WorkerFinished(id),
                None => EventKind::WorkersIdle,
            },
    {
        match finished {
            Some(((), id)) => Event::WorkerFinished(id),
            None => Event::WorkersIdle,
        }
    }
}

/// What the caller is to do after an event.
#[derive(Clone, Copy, PartialEq, Eq, Debug)]
pub enum Action {
    /// Nothing; wait for the next event.
    Continue,
    /// Nothing; the connection has a worker now, under this identifier, and
    /// its work is in the task set.
    Spawn(usize),
    /// Nothing; the connection was dropped and no worker was started for it.
    Refuse,
    /// Nothing; a worker is no longer in flight, and this many still are.
    Reaped { remaining: usize },
    /// Close the listening socket, then wait for the workers in flight.
    CloseListener,
    /// Leave the loop. This many workers are still in flight and are left
    /// behind.
    Exit { abandoned: usize },
    /// End the process on this failure.
    Abort(Failure),
}

/// The server loop as a mathematical value.
pub struct ServerState {
    pub phase: Phase,
    /// Whether the shutdown signal has fired.
    pub signalled: bool,
    /// The identifiers of the workers in flight.
    pub workers: Set<usize>,
}

/// The state in which the loop starts: serving, no signal, no worker.
pub open spec fn initial() -> ServerState {
    ServerState { phase: Phase::Serving, signalled: false, workers: Set::empty() }
}

/// The state that follows `s` on `event`.
pub open spec fn next_state(s: ServerState, event: EventKind) -> ServerState {
    match s.phase {
        Phase::Serving => match event {
            EventKind::Shutdown => ServerState { phase: Phase::Draining, signalled: true, ..s },
            EventKind::Accepted => ServerState {
                workers: s.workers.insert(least_free(s.workers)),
                ..s
            },
            EventKind::AcceptFailed => ServerState { phase: Phase::Terminated, ..s },
            EventKind::ListenerClosed | EventKind::Quiescent => ServerState {
                phase: Phase::Draining,
                ..s
            },
            EventKind::WorkerFinished(id) => ServerState { workers: s.workers.remove(id), ..s },
            EventKind::WorkersIdle => s,
        },
        Phase::Draining => match event {
            EventKind::Shutdown => ServerState { phase: Phase::Terminated, signalled: true, ..s },
            EventKind::WorkerFinished(id) => ServerState {
                phase: if s.workers.remove(id).is_empty() {
                    Phase::Terminated
                } else {
                    Phase::Draining
                },
                workers: s.workers.remove(id),
                ..s
            },
            EventKind::WorkersIdle | EventKind::Quiescent => ServerState {
                phase: Phase::Terminated,
                ..s
            },
            EventKind::Accepted | EventKind::AcceptFailed | EventKind::ListenerClosed => s,
        },
        Phase::Terminated => s,
    }
}

/// The action with which the loop answers `event` in state `s`.
pub open spec fn reaction(s: ServerState, event: EventKind) -> Action {
    match s.phase {
        Phase::Serving => match event {
            EventKind::Shutdown
            | EventKind::ListenerClosed
            | EventKind::Quiescent => Action::CloseListener,
            EventKind::Accepted => Action::Spawn(least_free(s.workers)),
            EventKind::AcceptFailed => Action::Abort(Failure::Accept),
            EventKind::WorkerFinished(id) => if s.workers.contains(id) {
                Action::Reaped { remaining: s.workers.remove(id).len() as usize }
            } else {
                Action::Continue
            },
            EventKind::WorkersIdle => Action::Continue,
        },
        Phase::Draining => match event {
            EventKind::Shutdown | EventKind::WorkersIdle | EventKind::Quiescent => Action::Exit {
                abandoned: s.workers.len() as usize,
            },
            EventKind::WorkerFinished(id) => if s.workers.remove(id).is_empty() {
                Action::Exit { abandoned: 0 }
            } else if s.workers.contains(id) {
                Action::Reaped { remaining: s.workers.remove(id).len() as usize }
            } else {
                Action::Continue
            },
            EventKind::Accepted => Action::Refuse,
            EventKind::AcceptFailed | EventKind::ListenerClosed => Action::Continue,
        },
        Phase::Terminated => match event {
            EventKind::Accepted => Action::Refuse,
            _ => Action::Exit { abandoned: s.workers.len() as usize },
        },
    }
}

/// The server loop. Its view is a [`ServerState`].
pub struct ServerLoop {
    phase: Phase,
    signal: ShutdownSignal,
    workers: WorkerSet,
    tasks: FuturesUnordered<LocalFutureObj<'static, ((), usize)>>,
}

impl View for ServerLoop {
    type V = ServerState;

    closed spec fn view(&self) -> ServerState {
        ServerState { phase: self.phase, signalled: self.signal@, workers: self.workers@ }
    }
}

impl ServerLoop {
    /// The identifiers of the workers whose work is in the task set. A worker
    /// that has run to its end leaves the task set when the caller polls the
    /// set, and the workers in flight when the caller reports it finished.
    pub closed spec fn tasks_held(&self) -> Multiset<usize> {
        held(self.tasks)
    }

    /// A loop in its initial state, with an empty task set.
    pub fn new() -> (server: Self)
        ensures
            server@ == initial(),
            server.tasks_held() == Multiset::<usize>::empty(),
    {
        ServerLoop {
            phase: Phase::Serving,
            signal: ShutdownSignal::new(),
            workers: WorkerSet::new(),
            tasks: new_tasks(),
        }
    }

    /// The workers in flight are finitely many.
    pub proof fn lemma_workers_finite(&self)
        ensures
            self@.workers.finite(),
    {
        self.workers.lemma_finite();
    }

    /// The state of the loop.
    pub fn phase(&self) -> (phase: Phase)
        ensures
            phase == self@.phase,
    {
        self.phase
    }

    /// Whether the loop has ended.
    pub fn is_terminated(&self) -> (ended: bool)
        ensures
            ended == (self@.phase == Phase::Terminated),
    {
        match self.phase {
            Phase::Terminated => true,
            _ => false,
        }
    }

    /// Whether the shutdown signal has fired.
    pub fn shutdown_requested(&self) -> (fired: bool)
        ensures
            fired == self@.signalled,
    {
        self.signal.is_terminated()
    }

    /// How many workers are in flight.
    pub fn worker_count(&self) -> (count: usize)
        ensures
            self@.workers.finite(),
            count == self@.workers.len(),
    {
        self.workers.len()
    }

    /// Whether the worker `id` is in flight.
    pub fn tracks(&self, id: usize) -> (found: bool)
        ensures
            found == self@.workers.contains(id),
    {
        self.workers.contains(id)
    }

    /// How many workers have their work in the task set.
    pub fn tasks_len(&self) -> (count: usize)
        ensures
            count == self.tasks_held().len(),
    {
        count_tasks(&self.tasks)
    }

    /// The task set, for the caller to poll. The poll runs the workers and
    /// hands out, for one that has finished, the identifier it was started
    /// under; [`Event::polled`] makes the event of it. The state of the
    /// loop is not touched.
    pub fn tasks_mut(&mut self) -> (tasks: &mut FuturesUnordered<
        LocalFutureObj<'static, ((), usize)>,
    >)
        ensures
            held(*tasks) == old(self).tasks_held(),
            final(self).tasks_held() == held(*final(tasks)),
            final(self)@ == old(self)@,
    {
        &mut self.tasks
    }

    /// Takes one event: moves the loop to its next state and returns what the
    /// caller is to do.
    ///
    /// The work of a connection that is taken in while the loop serves goes
    /// into the task set, once, under the identifier in the answer. Otherwise
    /// the work is dropped, and with it the connection. No other event
    /// changes the task set.
    pub fn step(&mut self, event: Event) -> (action: Action)
        ensures
            final(self)@ == next_state(old(self)@, event@),
            action == reaction(old(self)@, event@),
            action matches Action::Spawn(id) ==> is_least_free(old(self)@.workers, id),
            final(self).tasks_held() == if let Action::Spawn(id) = action {
                old(self).tasks_held().insert(id)
            } else {
                old(self).tasks_held()
            },
    {
        match self.phase {
            Phase::Serving => match event {
                Event::Shutdown => {
                    self.phase = Phase::Draining;
                    self.signal.fire();
                    Action::CloseListener
                },
                Event::Accepted(work) => {
                    let id = self.workers.register();
                    push_work(&mut self.tasks, id, work);
                    Action::Spawn(id)
                },
                Event::AcceptFailed => {
                    self.phase = Phase::Terminated;
                    Action::Abort(Failure::Accept)
                },
                Event::ListenerClosed | Event::Quiescent => {
                    self.phase = Phase::Draining;
                    Action::CloseListener
                },
                Event::WorkerFinished(id) => {
                    if self.workers.reap(id) {
                        Action::Reaped { remaining: self.workers.len() }
                    } else {
                        Action::Continue
                    }
                },
                Event::WorkersIdle => Action::Continue,
            },
            Phase::Draining => match event {
                Event::Shutdown => {
                    self.phase = Phase::Terminated;
                    self.signal.fire();
                    Action::Exit { abandoned: self.workers.len() }
                },
                Event::WorkerFinished(id) => {
                    let found = self.workers.reap(id);
                    if self.workers.is_empty() {
                        self.phase = Phase::Terminated;
                        Action::Exit { abandoned: 0 }
                    } else if found {
                        Action::Reaped { remaining: self.workers.len() }
                    } else {
                        Action::Continue
                    }
                },
                Event::WorkersIdle | Event::Quiescent => {
                    self.phase = Phase::Terminated;
                    Action::Exit { abandoned: self.workers.len() }
                },
                Event::Accepted(_) => Action::Refuse,
                Event::AcceptFailed | Event::ListenerClosed => Action::Continue,
            },
            Phase::Terminated => match event {
                Event::Accepted(_) => Action::Refuse,
                _ => Action::Exit { abandoned: self.workers.len() },
            },
        }
    }
}

} // verus!
