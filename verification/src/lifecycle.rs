//! What holds of the server loop over any sequence of events.

use crate::registry::{least_free, lemma_least_free_exists};
use crate::server::{initial, next_state, reaction, Action, EventKind, Phase, ServerState};
use vstd::prelude::*;

verus! {

/// The state that follows `s` on a sequence of events, first to last.
pub open spec fn run(s: ServerState, events: Seq<EventKind>) -> ServerState
    decreases events.len(),
{
    if events.len() == 0 {
        s
    } else {
        next_state(run(s, events.drop_last()), events.last())
    }
}

/// The state in which the event at `at` arrives.
pub open spec fn state_at(s: ServerState, events: Seq<EventKind>, at: int) -> ServerState {
    run(s, events.take(at))
}

/// The action with which the loop answers the event at `at`.
pub open spec fn action_at(s: ServerState, events: Seq<EventKind>, at: int) -> Action {
    reaction(state_at(s, events, at), events[at])
}

/// How far a phase is along the way from serving to terminated.
pub open spec fn progress(phase: Phase) -> nat {
    match phase {
        Phase::Serving => 0,
        Phase::Draining => 1,
        Phase::Terminated => 2,
    }
}

/// The event reports that the task set holds no work.
pub open spec fn reports_idle(event: EventKind) -> bool {
    event == EventKind::WorkersIdle || event == EventKind::Quiescent
}

/// The event does not contradict the state: the task set is reported idle
/// only when no worker is in flight.
pub open spec fn agrees(s: ServerState, event: EventKind) -> bool {
    reports_idle(event) ==> s.workers.is_empty()
}

/// The phases are passed in one direction: a step never leads back.
pub proof fn lemma_phase_advances(s: ServerState, event: EventKind)
    ensures
        progress(s.phase) <= progress(next_state(s, event).phase),
{
}

/// The answers go with the phases. The listener is to be closed exactly when
/// the loop leaves service for the drain; the loop is to be left exactly when
/// it has terminated in good order; the process is to be ended exactly when a
/// failure has terminated the loop.
pub proof fn lemma_answers_follow_phases(s: ServerState, event: EventKind)
    ensures
        reaction(s, event) == Action::CloseListener <==> s.phase == Phase::Serving && next_state(
            s,
            event,
        ).phase == Phase::Draining,
        reaction(s, event) is Exit ==> next_state(s, event).phase == Phase::Terminated,
        reaction(s, event) is Abort <==> s.phase == Phase::Serving && next_state(s, event).phase
            == Phase::Terminated,
        s.phase == Phase::Draining && next_state(s, event).phase == Phase::Terminated ==> reaction(
            s,
            event,
        ) is Exit,
{
}

/// The shutdown signal is never reset.
pub proof fn lemma_signal_stays(s: ServerState, event: EventKind)
    ensures
        s.signalled ==> next_state(s, event).signalled,
        event == EventKind::Shutdown && s.phase != Phase::Terminated ==> next_state(
            s,
            event,
        ).signalled,
{
}

/// A connection that is taken in while the loop serves gets a worker of its
/// own: its identifier was free (`free` shows that one is), and the worker is
/// in flight from then on.
pub proof fn lemma_accepted_is_tracked(s: ServerState, free: usize)
    requires
        s.phase == Phase::Serving,
        !s.workers.contains(free),
    ensures
        reaction(s, EventKind::Accepted) == Action::Spawn(least_free(s.workers)),
        !s.workers.contains(least_free(s.workers)),
        next_state(s, EventKind::Accepted).workers == s.workers.insert(least_free(s.workers)),
        next_state(s, EventKind::Accepted).phase == Phase::Serving,
{
    lemma_least_free_exists(s.workers, free);
}

/// No worker is lost while its connection is open: it is in flight until the
/// event that reports it finished, and no step adds a worker but the one
/// that takes a connection in.
pub proof fn lemma_tracked_until_finished(s: ServerState, event: EventKind, id: usize)
    ensures
        s.workers.contains(id) && event != EventKind::WorkerFinished(id) ==> next_state(
            s,
            event,
        ).workers.contains(id),
        !s.workers.contains(id) && next_state(s, event).workers.contains(id) ==> {
            &&& s.phase == Phase::Serving
            &&& event == EventKind::Accepted
            &&& reaction(s, event) == Action::Spawn(id)
        },
        s.phase != Phase::Terminated ==> !next_state(
            s,
            EventKind::WorkerFinished(id),
        ).workers.contains(id),
{
}

/// Once the listener is closed it stays closed: a loop that no longer serves
/// never serves again, starts no worker, and refuses every connection that
/// still arrives.
pub proof fn lemma_closed_stays_closed(s: ServerState, event: EventKind)
    requires
        s.phase != Phase::Serving,
    ensures
        next_state(s, event).phase != Phase::Serving,
        !(reaction(s, event) is Spawn),
        next_state(s, event).workers.subset_of(s.workers),
        event == EventKind::Accepted ==> {
            &&& reaction(s, event) == Action::Refuse
            &&& next_state(s, event) == s
        },
{
}

/// After the shutdown signal no connection is taken in. Whatever the state
/// in which the signal fires and whatever follows it, the loop does not serve,
/// answers no event by starting a worker, refuses each connection that still
/// arrives, and the workers in flight only get fewer.
pub proof fn lemma_no_connection_after_shutdown(s: ServerState, events: Seq<EventKind>, at: int)
    requires
        0 <= at < events.len(),
    ensures
        next_state(s, EventKind::Shutdown).phase != Phase::Serving,
        state_at(next_state(s, EventKind::Shutdown), events, at).phase != Phase::Serving,
        !(action_at(next_state(s, EventKind::Shutdown), events, at) is Spawn),
        events[at] == EventKind::Accepted ==> action_at(
            next_state(s, EventKind::Shutdown),
            events,
            at,
        ) == Action::Refuse,
        run(next_state(s, EventKind::Shutdown), events).phase != Phase::Serving,
        run(next_state(s, EventKind::Shutdown), events).workers.subset_of(s.workers),
{
    let closed = next_state(s, EventKind::Shutdown);
    lemma_stays_closed_over(closed, events.take(at));
    lemma_stays_closed_over(closed, events);
    lemma_closed_stays_closed(state_at(closed, events, at), events[at]);
}

/// A loop that does not serve does not serve after any events either, and
/// its workers in flight only get fewer.
pub proof fn lemma_stays_closed_over(s: ServerState, events: Seq<EventKind>)
    requires
        s.phase != Phase::Serving,
    ensures
        run(s, events).phase != Phase::Serving,
        run(s, events).workers.subset_of(s.workers),
    decreases events.len(),
{
    if events.len() > 0 {
        lemma_stays_closed_over(s, events.drop_last());
        lemma_closed_stays_closed(run(s, events.drop_last()), events.last());
    }
}

/// In every state that the loop reaches from its start, the workers in
/// flight are finitely many, and the loop does not serve once the shutdown
/// signal has fired.
pub proof fn lemma_reached(events: Seq<EventKind>)
    ensures
        run(initial(), events).workers.finite(),
        run(initial(), events).signalled ==> run(initial(), events).phase != Phase::Serving,
    decreases events.len(),
{
    if events.len() > 0 {
        lemma_reached(events.drop_last());
    }
}

/// One step of the drain. On any event but a further signal, and none that
/// contradicts the state, the loop abandons no worker: each worker in flight
/// is either still waited for or has just been reported finished, and the
/// loop ends only when none is left.
pub proof fn lemma_drain_step(s: ServerState, event: EventKind)
    requires
        s.phase == Phase::Draining,
        event != EventKind::Shutdown,
        agrees(s, event),
    ensures
        next_state(s, event).phase != Phase::Serving,
        next_state(s, event).phase == Phase::Terminated ==> next_state(s, event).workers.is_empty(),
        forall|id: usize| #[trigger]
            s.workers.contains(id) ==> next_state(s, event).workers.contains(id) || event
                == EventKind::WorkerFinished(id),
        reaction(s, event) matches Action::Exit { abandoned } ==> abandoned == 0,
        !(reaction(s, event) is Abort),
{
    if reports_idle(event) {
        assert(s.workers =~= Set::<usize>::empty());
    }
}

/// No event contradicts the state in which it arrives.
pub open spec fn agrees_throughout(s: ServerState, events: Seq<EventKind>) -> bool {
    forall|at: int|
        0 <= at < events.len() ==> agrees(#[trigger] state_at(s, events, at), events[at])
}

/// No event is a shutdown signal.
pub open spec fn no_signal(events: Seq<EventKind>) -> bool {
    forall|at: int| 0 <= at < events.len() ==> #[trigger] events[at] != EventKind::Shutdown
}

/// The drain waits for every worker. After the shutdown signal, and as long
/// as no second signal arrives, the loop ends only when no worker is left in
/// flight: each worker that was in flight at the signal is still waited for
/// or was reported finished, and nothing the loop answers abandons one.
pub proof fn lemma_drain_waits_for_workers(s: ServerState, events: Seq<EventKind>)
    requires
        s.phase == Phase::Draining,
        no_signal(events),
        agrees_throughout(s, events),
    ensures
        run(s, events).phase != Phase::Serving,
        run(s, events).phase == Phase::Terminated ==> run(s, events).workers.is_empty(),
        forall|id: usize| #[trigger]
            s.workers.contains(id) ==> run(s, events).workers.contains(id) || exists|at: int|
                0 <= at < events.len() && #[trigger] events[at] == EventKind::WorkerFinished(id),
        forall|at: int|
            0 <= at < events.len() ==> (#[trigger] action_at(s, events, at) matches Action::Exit {
                abandoned,
            } ==> abandoned == 0),
    decreases events.len(),
{
    if events.len() > 0 {
        let before = events.drop_last();
        let last = events.last();
        let at_last = events.len() - 1;
        assert(before =~= events.take(at_last));
        assert forall|at: int| 0 <= at < before.len() implies agrees(
            #[trigger] state_at(s, before, at),
            before[at],
        ) by {
            assert(before.take(at) =~= events.take(at));
            assert(agrees(state_at(s, events, at), events[at]));
        }
        lemma_drain_waits_for_workers(s, before);
        let mid = run(s, before);
        assert(mid == state_at(s, events, at_last));
        assert(agrees(state_at(s, events, at_last), events[at_last]));
        if mid.phase == Phase::Draining {
            lemma_drain_step(mid, last);
        } else {
            assert(mid.workers =~= Set::<usize>::empty());
        }
        assert forall|id: usize| #[trigger] s.workers.contains(id) implies run(
            s,
            events,
        ).workers.contains(id) || exists|at: int|
            0 <= at < events.len() && #[trigger] events[at] == EventKind::WorkerFinished(id) by {
            if !run(s, events).workers.contains(id) {
                if mid.workers.contains(id) {
                    assert(events[at_last] == EventKind::WorkerFinished(id));
                } else {
                    let at = choose|at: int|
                        0 <= at < before.len() && #[trigger] before[at] == EventKind::WorkerFinished(
                            id,
                        );
                    assert(events[at] == EventKind::WorkerFinished(id));
                }
            }
        }
        assert forall|at: int| 0 <= at < events.len() implies (#[trigger] action_at(
            s,
            events,
            at,
        ) matches Action::Exit { abandoned } ==> abandoned == 0) by {
            if at < before.len() {
                assert(before.take(at) =~= events.take(at));
                assert(action_at(s, before, at) == action_at(s, events, at));
            }
        }
    }
}

/// The drain ends with the last worker: when the only worker in flight is
/// reported finished, the loop terminates and leaves none behind.
pub proof fn lemma_last_worker_ends_drain(s: ServerState, id: usize)
    requires
        s.phase == Phase::Draining,
        s.workers == Set::<usize>::empty().insert(id),
    ensures
        next_state(s, EventKind::WorkerFinished(id)).phase == Phase::Terminated,
        next_state(s, EventKind::WorkerFinished(id)).workers.is_empty(),
        reaction(s, EventKind::WorkerFinished(id)) == (Action::Exit { abandoned: 0 }),
{
    assert(s.workers.remove(id) =~= Set::<usize>::empty());
}

/// A signal during the drain ends the loop at once, however many workers are
/// still in flight: they are left behind.
pub proof fn lemma_signal_ends_drain(s: ServerState)
    requires
        s.phase == Phase::Draining,
    ensures
        next_state(s, EventKind::Shutdown).phase == Phase::Terminated,
        next_state(s, EventKind::Shutdown).workers == s.workers,
        reaction(s, EventKind::Shutdown) == (Action::Exit { abandoned: s.workers.len() as usize }),
{
}

/// Two signals end a serving loop: the first closes the listener and starts
/// the drain, the second terminates, whatever arrived in between and however
/// many workers are still in flight.
pub proof fn lemma_second_signal_terminates(s: ServerState, between: Seq<EventKind>)
    requires
        s.phase == Phase::Serving,
    ensures
        next_state(s, EventKind::Shutdown).phase == Phase::Draining,
        reaction(s, EventKind::Shutdown) == Action::CloseListener,
        next_state(run(next_state(s, EventKind::Shutdown), between), EventKind::Shutdown).phase
            == Phase::Terminated,
{
    lemma_stays_closed_over(next_state(s, EventKind::Shutdown), between);
}

} // verus!
