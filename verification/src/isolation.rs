//! Many connections at once: each session goes by its own events alone.

use crate::session::{
    advance, in_step, lemma_echo_round_trip, opened, replay, CloseReason, IoEvent, Session, Waiting,
};
use vstd::prelude::*;

verus! {

/// The sessions after `event` arrived on connection `conn`. A connection that
/// is not among them changes nothing.
pub open spec fn deliver(sessions: Seq<Session>, conn: int, event: IoEvent) -> Seq<Session> {
    if 0 <= conn < sessions.len() {
        sessions.update(conn, advance(sessions[conn], event))
    } else {
        sessions
    }
}

/// The sessions after the events of `trace`, each with the connection it
/// arrived on, first to last.
pub open spec fn interleave(sessions: Seq<Session>, trace: Seq<(int, IoEvent)>) -> Seq<Session>
    decreases trace.len(),
{
    if trace.len() == 0 {
        sessions
    } else {
        deliver(interleave(sessions, trace.drop_last()), trace.last().0, trace.last().1)
    }
}

/// The events of `trace` that arrived on connection `conn`, in their order.
pub open spec fn events_on(trace: Seq<(int, IoEvent)>, conn: int) -> Seq<IoEvent>
    decreases trace.len(),
{
    if trace.len() == 0 {
        Seq::empty()
    } else if trace.last().0 == conn {
        events_on(trace.drop_last(), conn).push(trace.last().1)
    } else {
        events_on(trace.drop_last(), conn)
    }
}

/// No cross-talk. However the events of several connections interleave, the
/// session of each connection is what its own events alone make of it.
pub proof fn lemma_no_cross_talk(sessions: Seq<Session>, trace: Seq<(int, IoEvent)>, conn: int)
    requires
        0 <= conn < sessions.len(),
    ensures
        interleave(sessions, trace).len() == sessions.len(),
        interleave(sessions, trace)[conn] == replay(sessions[conn], events_on(trace, conn)),
    decreases trace.len(),
{
    if trace.len() > 0 {
        let before = trace.drop_last();
        lemma_no_cross_talk(sessions, before, conn);
        if trace.last().0 == conn {
            let own = events_on(before, conn).push(trace.last().1);
            assert(own.drop_last() =~= events_on(before, conn));
            assert(own.last() == trace.last().1);
        }
    }
}

/// Independent echoes. Of any number of connections that are served at once,
/// each has written back its own bytes and no others: a prefix of what it
/// read at any time, and all of it once its peer's close has ended it.
pub proof fn lemma_concurrent_echoes(count: nat, trace: Seq<(int, IoEvent)>, conn: int)
    requires
        0 <= conn < count,
    ensures
        interleave(Seq::new(count, |i: int| opened()), trace).len() == count,
        in_step(interleave(Seq::new(count, |i: int| opened()), trace)[conn]),
        interleave(Seq::new(count, |i: int| opened()), trace)[conn].echoed.is_prefix_of(
            interleave(Seq::new(count, |i: int| opened()), trace)[conn].received,
        ),
        interleave(Seq::new(count, |i: int| opened()), trace)[conn].waiting == Waiting::Closed(
            CloseReason::Eof,
        ) ==> interleave(Seq::new(count, |i: int| opened()), trace)[conn].echoed == interleave(
            Seq::new(count, |i: int| opened()),
            trace,
        )[conn].received,
{
    let sessions = Seq::new(count, |i: int| opened());
    lemma_no_cross_talk(sessions, trace, conn);
    lemma_echo_round_trip(events_on(trace, conn));
}

} // verus!
