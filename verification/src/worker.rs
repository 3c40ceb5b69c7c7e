//! The connection worker: the echo loop of one connection, one decision at a
//! time.
//!
//! The caller owns the connection and a buffer of [`BUFFER_SIZE`] bytes. It
//! reads into the buffer and reports the outcome to a [`Worker`], which either
//! hands back the bytes to write or ends the session. After the write it
//! reports that outcome to the pending [`Echo`], which either hands back the
//! worker for the next read or ends the session. Each value is used up by the
//! step it takes, so the steps can only be taken in the order of the loop.

use crate::failure::Failure;
use crate::session::{
    advance, in_step, lemma_advance_in_step, opened, CloseReason, IoEvent, Session, Waiting,
};
use vstd::prelude::*;
use vstd::slice::slice_subrange;

verus! {

/// The size of the buffer that a worker reads into.
pub const BUFFER_SIZE: usize = 4096;

/// The outcome of a read.
#[derive(Clone, Copy, PartialEq, Eq, Debug)]
pub enum ReadOutcome {
    /// The read put this many bytes at the start of the buffer.
    Bytes(usize),
    /// The read failed.
    Failed,
}

/// The outcome of a write of all pending bytes.
#[derive(Clone, Copy, PartialEq, Eq, Debug)]
pub enum WriteOutcome {
    /// Every byte was written.
    Done,
    /// The write failed.
    Failed,
}

/// What a read reports to the session: the bytes at the start of the buffer,
/// or the failure.
pub open spec fn read_event(buf: Seq<u8>, outcome: ReadOutcome) -> IoEvent {
    match outcome {
        ReadOutcome::Bytes(found) => IoEvent::Read(buf.subrange(0, found as int)),
        ReadOutcome::Failed => IoEvent::ReadFailed,
    }
}

/// What a write reports to the session.
pub open spec fn write_event(outcome: WriteOutcome) -> IoEvent {
    match outcome {
        WriteOutcome::Done => IoEvent::Written,
        WriteOutcome::Failed => IoEvent::WriteFailed,
    }
}

/// The failure behind a close, if there is one. The peer's orderly close is
/// none.
pub open spec fn failure_of(reason: CloseReason) -> Option<Failure> {
    match reason {
        CloseReason::Eof => None,
        CloseReason::ReadFailed => Some(Failure::Read),
        CloseReason::WriteFailed => Some(Failure::Write),
    }
}

/// A worker that waits for the result of a read. Its view is the session so
/// far.
pub struct Worker {
    session: Ghost<Session>,
}

/// A worker that waits for the result of a write. Its view is the session so
/// far.
pub struct Echo<'a> {
    chunk: &'a [u8],
    session: Ghost<Session>,
}

/// A worker at its end: the connection is to be released. Its view is the
/// whole session.
pub struct Closed {
    reason: CloseReason,
    session: Ghost<Session>,
}

/// What follows a read.
pub enum AfterRead<'a> {
    /// Write these bytes back.
    Echo(Echo<'a>),
    /// Release the connection.
    Closed(Closed),
}

/// What follows a write.
pub enum AfterWrite {
    /// Read again.
    Read(Worker),
    /// Release the connection.
    Closed(Closed),
}

impl View for Worker {
    type V = Session;

    closed spec fn view(&self) -> Session {
        self.session@
    }
}

impl<'a> View for Echo<'a> {
    type V = Session;

    closed spec fn view(&self) -> Session {
        self.session@
    }
}

impl View for Closed {
    type V = Session;

    closed spec fn view(&self) -> Session {
        self.session@
    }
}

impl<'a> View for AfterRead<'a> {
    type V = Session;

    open spec fn view(&self) -> Session {
        match self {
            AfterRead::Echo(echo) => echo@,
            AfterRead::Closed(closed) => closed@,
        }
    }
}

impl View for AfterWrite {
    type V = Session;

    open spec fn view(&self) -> Session {
        match self {
            AfterWrite::Read(worker) => worker@,
            AfterWrite::Closed(closed) => closed@,
        }
    }
}

impl Worker {
    #[verifier::type_invariant]
    spec fn waits_for_read(self) -> bool {
        self.session@.waiting == Waiting::Read && in_step(self.session@)
    }

    /// The worker of a connection that was just taken in.
    pub fn new() -> (worker: Self)
        ensures
            worker@ == opened(),
    {
        Worker { session: Ghost(opened()) }
    }

    /// Takes the outcome of a read into `buf`.
    ///
    /// Bytes are handed back to be written, verbatim and all of them. No
    /// bytes are the peer's close, and a failed read ends the session as
    /// well.
    pub fn on_read<'a>(self, buf: &'a [u8; BUFFER_SIZE], outcome: ReadOutcome) -> (next: AfterRead<
        'a,
    >)
        requires
            outcome matches ReadOutcome::Bytes(found) ==> found <= BUFFER_SIZE,
        ensures
            self@.waiting == Waiting::Read,
            in_step(self@),
            next@ == advance(self@, read_event(buf@, outcome)),
            in_step(next@),
            match outcome {
                ReadOutcome::Bytes(found) => if found == 0 {
                    next matches AfterRead::Closed(closed) && closed@.waiting == Waiting::Closed(
                        CloseReason::Eof,
                    )
                } else {
                    next matches AfterRead::Echo(echo) && echo@.waiting == Waiting::Write(
                        buf@.subrange(0, found as int),
                    )
                },
                ReadOutcome::Failed => next matches AfterRead::Closed(closed)
                    && closed@.waiting == Waiting::Closed(CloseReason::ReadFailed),
            },
    {
        proof {
            use_type_invariant(&self);
            lemma_advance_in_step(self.session@, read_event(buf@, outcome));
        }
        let ghost before = self.session@;
        match outcome {
            ReadOutcome::Bytes(found) => {
                let chunk = slice_subrange(buf.as_slice(), 0, found);
                if chunk.is_empty() {
                    AfterRead::Closed(
                        Closed {
                            reason: CloseReason::Eof,
                            session: Ghost(advance(before, IoEvent::Read(chunk@))),
                        },
                    )
                } else {
                    AfterRead::Echo(
                        Echo { chunk, session: Ghost(advance(before, IoEvent::Read(chunk@))) },
                    )
                }
            },
            ReadOutcome::Failed => AfterRead::Closed(
                Closed {
                    reason: CloseReason::ReadFailed,
                    session: Ghost(advance(before, IoEvent::ReadFailed)),
                },
            ),
        }
    }
}

impl<'a> Echo<'a> {
    #[verifier::type_invariant]
    spec fn waits_for_write(self) -> bool {
        self.session@.waiting == Waiting::Write(self.chunk@) && in_step(self.session@)
    }

    /// The bytes to write back: those that the last read gave. They are what
    /// the session has read and not yet written back.
    pub fn chunk(&self) -> (bytes: &'a [u8])
        ensures
            self@.waiting == Waiting::Write(bytes@),
            bytes@.len() > 0,
            self@.received == self@.echoed + bytes@,
    {
        proof {
            use_type_invariant(self);
        }
        self.chunk
    }

    /// Takes the outcome of the write of [`Echo::chunk`].
    ///
    /// After a write that went through the worker reads again. A failed
    /// write ends the session.
    pub fn on_write(self, outcome: WriteOutcome) -> (next: AfterWrite)
        ensures
            self@.waiting is Write,
            in_step(self@),
            next@ == advance(self@, write_event(outcome)),
            in_step(next@),
            match outcome {
                WriteOutcome::Done => next is Read,
                WriteOutcome::Failed => next matches AfterWrite::Closed(closed)
                    && closed@.waiting == Waiting::Closed(CloseReason::WriteFailed),
            },
    {
        proof {
            use_type_invariant(&self);
            lemma_advance_in_step(self.session@, write_event(outcome));
        }
        let ghost before = self.session@;
        match outcome {
            WriteOutcome::Done => AfterWrite::Read(
                Worker { session: Ghost(advance(before, IoEvent::Written)) },
            ),
            WriteOutcome::Failed => AfterWrite::Closed(
                Closed {
                    reason: CloseReason::WriteFailed,
                    session: Ghost(advance(before, IoEvent::WriteFailed)),
                },
            ),
        }
    }
}

impl Closed {
    #[verifier::type_invariant]
    spec fn waits_for_nothing(self) -> bool {
        self.session@.waiting == Waiting::Closed(self.reason) && in_step(self.session@)
    }

    /// Why the session ended. A session that the peer's close ended has
    /// written back every byte that it read.
    pub fn reason(&self) -> (reason: CloseReason)
        ensures
            self@.waiting == Waiting::Closed(reason),
            in_step(self@),
            reason == CloseReason::Eof ==> self@.echoed == self@.received,
    {
        proof {
            use_type_invariant(self);
        }
        self.reason
    }

    /// The failure that ended the session, if one did. It is contained: it
    /// ends this worker and nothing else.
    pub fn failure(&self) -> (failure: Option<Failure>)
        ensures
            self@.waiting matches Waiting::Closed(reason) && failure == failure_of(reason),
    {
        proof {
            use_type_invariant(self);
        }
        match self.reason {
            CloseReason::Eof => None,
            CloseReason::ReadFailed => Some(Failure::Read),
            CloseReason::WriteFailed => Some(Failure::Write),
        }
    }
}

} // verus!
