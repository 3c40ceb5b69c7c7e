use echo_server::failure::Failure;
use echo_server::session::CloseReason;
use echo_server::worker::{AfterRead, AfterWrite, ReadOutcome, Worker, WriteOutcome, BUFFER_SIZE};

/// Plays the peer and the transport for one connection: the message arrives
/// in reads of at most `at_most` bytes, every write goes through, and the
/// peer closes after the last byte. Returns what was written back and why the
/// session ended.
fn converse(message: &[u8], at_most: usize) -> (Vec<u8>, CloseReason) {
    assert!(0 < at_most && at_most <= BUFFER_SIZE);
    let mut buf = [0u8; BUFFER_SIZE];
    let mut echoed = Vec::new();
    let mut sent = 0;
    let mut worker = Worker::new();
    loop {
        let found = at_most.min(message.len() - sent);
        buf[..found].copy_from_slice(&message[sent..sent + found]);
        sent += found;
        match worker.on_read(&buf, ReadOutcome::Bytes(found)) {
            AfterRead::Echo(echo) => {
                echoed.extend_from_slice(echo.chunk());
                match echo.on_write(WriteOutcome::Done) {
                    AfterWrite::Read(next) => worker = next,
                    AfterWrite::Closed(closed) => return (echoed, closed.reason()),
                }
            }
            AfterRead::Closed(closed) => return (echoed, closed.reason()),
        }
    }
}

#[test]
fn buffer_holds_4096_bytes() {
    assert_eq!(BUFFER_SIZE, 4096);
}

#[test]
fn ping_is_echoed_and_close_is_eof() {
    let (echoed, reason) = converse(b"ping", BUFFER_SIZE);
    assert_eq!(echoed, b"ping".to_vec());
    assert_eq!(reason, CloseReason::Eof);
}

#[test]
fn read_bytes_are_handed_back_verbatim() {
    let mut buf = [0u8; BUFFER_SIZE];
    buf[..5].copy_from_slice(b"hello");
    buf[5] = b'!';
    match Worker::new().on_read(&buf, ReadOutcome::Bytes(5)) {
        AfterRead::Echo(echo) => assert_eq!(echo.chunk(), &b"hello"[..]),
        AfterRead::Closed(_) => panic!("a read of five bytes must be echoed"),
    }
}

#[test]
fn read_of_no_bytes_ends_the_session_without_failure() {
    let buf = [7u8; BUFFER_SIZE];
    match Worker::new().on_read(&buf, ReadOutcome::Bytes(0)) {
        AfterRead::Closed(closed) => {
            assert_eq!(closed.reason(), CloseReason::Eof);
            assert_eq!(closed.failure(), None);
        }
        AfterRead::Echo(_) => panic!("nothing was read, nothing is to be written"),
    }
}

#[test]
fn failed_read_ends_the_session() {
    let buf = [7u8; BUFFER_SIZE];
    match Worker::new().on_read(&buf, ReadOutcome::Failed) {
        AfterRead::Closed(closed) => {
            assert_eq!(closed.reason(), CloseReason::ReadFailed);
            assert_eq!(closed.failure(), Some(Failure::Read));
        }
        AfterRead::Echo(_) => panic!("a failed read gives nothing to write"),
    }
}

#[test]
fn failed_write_ends_the_session() {
    let buf = [1u8; BUFFER_SIZE];
    let echo = match Worker::new().on_read(&buf, ReadOutcome::Bytes(3)) {
        AfterRead::Echo(echo) => echo,
        AfterRead::Closed(_) => panic!("three bytes were read"),
    };
    assert_eq!(echo.chunk(), &[1u8, 1, 1][..]);
    match echo.on_write(WriteOutcome::Failed) {
        AfterWrite::Closed(closed) => {
            assert_eq!(closed.reason(), CloseReason::WriteFailed);
            assert_eq!(closed.failure(), Some(Failure::Write));
        }
        AfterWrite::Read(_) => panic!("a failed write ends the worker"),
    }
}

#[test]
fn write_that_went_through_leads_to_the_next_read() {
    let buf = [9u8; BUFFER_SIZE];
    let echo = match Worker::new().on_read(&buf, ReadOutcome::Bytes(BUFFER_SIZE)) {
        AfterRead::Echo(echo) => echo,
        AfterRead::Closed(_) => panic!("a full buffer was read"),
    };
    assert_eq!(echo.chunk().len(), BUFFER_SIZE);
    assert!(matches!(echo.on_write(WriteOutcome::Done), AfterWrite::Read(_)));
}

#[test]
fn message_larger_than_the_buffer_is_echoed_in_full() {
    let message: Vec<u8> = (0..10_000u32).map(|i| (i % 251) as u8).collect();
    let (echoed, reason) = converse(&message, BUFFER_SIZE);
    assert_eq!(echoed.len(), 10_000);
    assert_eq!(echoed, message);
    assert_eq!(reason, CloseReason::Eof);
}

#[test]
fn chunk_boundaries_do_not_change_the_echo() {
    let message: Vec<u8> = (0..9_000u32).map(|i| (i * 7 % 256) as u8).collect();
    for at_most in [1usize, 2, 3, 17, 4095, 4096] {
        let (echoed, reason) = converse(&message, at_most);
        assert_eq!(echoed, message);
        assert_eq!(reason, CloseReason::Eof);
    }
}

#[test]
fn empty_conversation_echoes_nothing() {
    let (echoed, reason) = converse(b"", BUFFER_SIZE);
    assert!(echoed.is_empty());
    assert_eq!(reason, CloseReason::Eof);
}

#[test]
fn concurrent_connections_echo_without_cross_talk() {
    let payloads: Vec<Vec<u8>> = (0..8u8)
        .map(|conn| {
            let length = 100 + 30 * conn as usize;
            (0..length).map(|i| conn.wrapping_mul(31).wrapping_add(i as u8)).collect()
        })
        .collect();
    let mut buffers = vec![[0u8; BUFFER_SIZE]; payloads.len()];
    let mut workers: Vec<Option<Worker>> = payloads.iter().map(|_| Some(Worker::new())).collect();
    let mut sent = vec![0usize; payloads.len()];
    let mut echoed: Vec<Vec<u8>> = vec![Vec::new(); payloads.len()];
    let mut open = payloads.len();
    let mut turn = 0usize;
    while open > 0 {
        let conn = (turn * 5 + 3) % payloads.len();
        turn += 1;
        let worker = match workers[conn].take() {
            Some(worker) => worker,
            None => continue,
        };
        let found = (1 + turn % 13).min(payloads[conn].len() - sent[conn]);
        buffers[conn][..found].copy_from_slice(&payloads[conn][sent[conn]..sent[conn] + found]);
        sent[conn] += found;
        match worker.on_read(&buffers[conn], ReadOutcome::Bytes(found)) {
            AfterRead::Echo(echo) => {
                echoed[conn].extend_from_slice(echo.chunk());
                match echo.on_write(WriteOutcome::Done) {
                    AfterWrite::Read(next) => workers[conn] = Some(next),
                    AfterWrite::Closed(_) => panic!("every write went through"),
                }
            }
            AfterRead::Closed(closed) => {
                assert_eq!(closed.reason(), CloseReason::Eof);
                open -= 1;
            }
        }
    }
    for conn in 0..payloads.len() {
        assert_eq!(echoed[conn], payloads[conn]);
        for other in 0..payloads.len() {
            if other != conn {
                assert_ne!(echoed[conn], payloads[other]);
            }
        }
    }
}

#[test]
fn failure_on_one_connection_leaves_the_others_alone() {
    let first_buf = [b'a'; BUFFER_SIZE];
    let second_buf = [b'b'; BUFFER_SIZE];
    let first = match Worker::new().on_read(&first_buf, ReadOutcome::Bytes(2)) {
        AfterRead::Echo(echo) => echo,
        AfterRead::Closed(_) => panic!("two bytes were read"),
    };
    let second = match Worker::new().on_read(&second_buf, ReadOutcome::Bytes(2)) {
        AfterRead::Echo(echo) => echo,
        AfterRead::Closed(_) => panic!("two bytes were read"),
    };
    assert!(matches!(first.on_write(WriteOutcome::Failed), AfterWrite::Closed(_)));
    assert_eq!(second.chunk(), &b"bb"[..]);
    assert!(matches!(second.on_write(WriteOutcome::Done), AfterWrite::Read(_)));
}
