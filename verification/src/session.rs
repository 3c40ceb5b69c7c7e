//! One connection as a mathematical value: what was read from the peer, what
//! was written back, and what the worker waits for.
//!
//! The worker reads, and writes back what it read, in turn. A read of no bytes
//! is the peer's orderly close. Any failure ends the session.

use vstd::prelude::*;

verus! {

/// Why a session ended.
#[derive(Clone, Copy, PartialEq, Eq, Debug)]
pub enum CloseReason {
    /// The peer closed: a read gave no bytes.
    Eof,
    /// A read failed.
    ReadFailed,
    /// A write failed.
    WriteFailed,
}

/// What the worker waits for.
pub enum Waiting {
    /// The result of a read.
    Read,
    /// The result of the write of these bytes.
    Write(Seq<u8>),
    /// Nothing: the session has ended.
    Closed(CloseReason),
}

/// What the transport reports to the worker.
pub enum IoEvent {
    /// A read gave these bytes.
    Read(Seq<u8>),
    /// A read failed.
    ReadFailed,
    /// The pending write went through in full.
    Written,
    /// The pending write failed.
    WriteFailed,
}

/// A session.
pub struct Session {
    pub waiting: Waiting,
    /// Every byte read from the peer, in order.
    pub received: Seq<u8>,
    /// Every byte whose write back to the peer went through, in order.
    pub echoed: Seq<u8>,
}

/// The session of a connection that was just taken in.
pub open spec fn opened() -> Session {
    Session { waiting: Waiting::Read, received: Seq::empty(), echoed: Seq::empty() }
}

/// The session that follows `s` on `event`. An event that the session does
/// not wait for leaves it as it is.
pub open spec fn advance(s: Session, event: IoEvent) -> Session {
    match (s.waiting, event) {
        (Waiting::Read, IoEvent::Read(bytes)) => if bytes.len() == 0 {
            Session { waiting: Waiting::Closed(CloseReason::Eof), ..s }
        } else {
            Session { waiting: Waiting::Write(bytes), received: s.received + bytes, ..s }
        },
        (Waiting::Read, IoEvent::ReadFailed) => Session {
            waiting: Waiting::Closed(CloseReason::ReadFailed),
            ..s
        },
        (Waiting::Write(bytes), IoEvent::Written) => Session {
            waiting: Waiting::Read,
            echoed: s.echoed + bytes,
            ..s
        },
        (Waiting::Write(_), IoEvent::WriteFailed) => Session {
            waiting: Waiting::Closed(CloseReason::WriteFailed),
            ..s
        },
        _ => s,
    }
}

/// The session that follows `s` on a sequence of events, first to last.
pub open spec fn replay(s: Session, events: Seq<IoEvent>) -> Session
    decreases events.len(),
{
    if events.len() == 0 {
        s
    } else {
        advance(replay(s, events.drop_last()), events.last())
    }
}

/// What was written back is what was read, up to the bytes whose write is
/// pending or failed.
pub open spec fn in_step(s: Session) -> bool {
    match s.waiting {
        Waiting::Read => s.echoed == s.received,
        Waiting::Write(bytes) => bytes.len() > 0 && s.received == s.echoed + bytes,
        Waiting::Closed(CloseReason::Eof) => s.echoed == s.received,
        Waiting::Closed(CloseReason::ReadFailed) => s.echoed == s.received,
        Waiting::Closed(CloseReason::WriteFailed) => s.echoed.is_prefix_of(s.received),
    }
}

/// One event keeps a session in step.
pub proof fn lemma_advance_in_step(s: Session, event: IoEvent)
    requires
        in_step(s),
    ensures
        in_step(advance(s, event)),
{
    match (s.waiting, event) {
        (Waiting::Write(bytes), IoEvent::WriteFailed) => {
            assert(s.echoed =~= (s.echoed + bytes).subrange(0, s.echoed.len() as int));
        },
        _ => {},
    }
}

/// Byte-for-byte round trip. Whatever the transport reports, and in whatever
/// chunks the bytes arrive, a session that started with a new connection
/// never writes back a byte that it did not read, keeps the order, and has
/// written back every byte it read by the time the peer's close ends it.
pub proof fn lemma_echo_round_trip(events: Seq<IoEvent>)
    ensures
        in_step(replay(opened(), events)),
        replay(opened(), events).echoed.is_prefix_of(replay(opened(), events).received),
        replay(opened(), events).waiting == Waiting::Closed(CloseReason::Eof) ==> replay(
            opened(),
            events,
        ).echoed == replay(opened(), events).received,
    decreases events.len(),
{
    if events.len() > 0 {
        lemma_echo_round_trip(events.drop_last());
        lemma_advance_in_step(replay(opened(), events.drop_last()), events.last());
    }
    let end = replay(opened(), events);
    match end.waiting {
        Waiting::Write(bytes) => {
            assert(end.echoed =~= (end.echoed + bytes).subrange(0, end.echoed.len() as int));
        },
        Waiting::Closed(CloseReason::WriteFailed) => {},
        _ => {
            assert(end.echoed =~= end.received.subrange(0, end.echoed.len() as int));
        },
    }
}

/// The bytes of all chunks, first to last.
pub open spec fn joined(chunks: Seq<Seq<u8>>) -> Seq<u8>
    decreases chunks.len(),
{
    if chunks.len() == 0 {
        Seq::empty()
    } else {
        joined(chunks.drop_last()) + chunks.last()
    }
}

/// What the transport reports when the peer's bytes arrive in these chunks
/// and every write goes through: a read and a write for each chunk.
pub open spec fn exchange(chunks: Seq<Seq<u8>>) -> Seq<IoEvent>
    decreases chunks.len(),
{
    if chunks.len() == 0 {
        Seq::empty()
    } else {
        exchange(chunks.drop_last()).push(IoEvent::Read(chunks.last())).push(IoEvent::Written)
    }
}

/// While no write fails, the worker has written back all the peer's bytes
/// after each chunk, wherever the chunk boundaries fall, and waits for the
/// next read.
pub proof fn lemma_exchange_echoes(chunks: Seq<Seq<u8>>)
    requires
        forall|i: int| 0 <= i < chunks.len() ==> (#[trigger] chunks[i]).len() > 0,
    ensures
        replay(opened(), exchange(chunks)) == (Session {
            waiting: Waiting::Read,
            received: joined(chunks),
            echoed: joined(chunks),
        }),
    decreases chunks.len(),
{
    if chunks.len() > 0 {
        let before = chunks.drop_last();
        let chunk = chunks.last();
        lemma_exchange_echoes(before);
        let read = exchange(before).push(IoEvent::Read(chunk));
        let events = exchange(chunks);
        assert(events.drop_last() =~= read);
        assert(read.drop_last() =~= exchange(before));
        assert(read.last() == IoEvent::Read(chunk));
        assert(events.last() == IoEvent::Written);
        let s0 = replay(opened(), exchange(before));
        assert(replay(opened(), read) == advance(s0, IoEvent::Read(chunk)));
        assert(replay(opened(), events) == advance(replay(opened(), read), IoEvent::Written));
    }
}

/// The round trip of a whole conversation: the peer's bytes arrive in any
/// chunks, every write goes through, and the peer closes. The session ends by
/// that close, having written back exactly the peer's bytes.
pub proof fn lemma_conversation_echoes(chunks: Seq<Seq<u8>>)
    requires
        forall|i: int| 0 <= i < chunks.len() ==> (#[trigger] chunks[i]).len() > 0,
    ensures
        replay(opened(), exchange(chunks).push(IoEvent::Read(Seq::empty()))) == (Session {
            waiting: Waiting::Closed(CloseReason::Eof),
            received: joined(chunks),
            echoed: joined(chunks),
        }),
{
    lemma_exchange_echoes(chunks);
    let events = exchange(chunks).push(IoEvent::Read(Seq::empty()));
    assert(events.drop_last() =~= exchange(chunks));
    assert(events.last() == IoEvent::Read(Seq::empty()));
}

} // verus!
