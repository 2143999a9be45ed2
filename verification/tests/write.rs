use ucx_stream::endpoint::{Endpoint, Handle};
use ucx_stream::error::{Cause, Error};
use ucx_stream::operation::{poll_normal, Event, Operation, Poll, Status, Step, Token};
use ucx_stream::writer::AsyncStreamWriterEndpoint;

#[derive(Clone, Copy, Debug, PartialEq, Eq)]
enum Kind {
    Send,
    Flush,
}

/// A transport that takes sends and flushes. A send is accepted whole. In
/// `deferred` mode it stays in flight until the test resolves it. A flush is a
/// barrier: it resolves only when every send submitted before it has.
struct Transport {
    deferred: bool,
    refuse: Option<Cause>,
    in_flight: Vec<(Token, Kind, Status)>,
    sends: usize,
    flushes: usize,
    polls: usize,
    next_token: usize,
    wire: Vec<u8>,
}

impl Transport {
    fn new(deferred: bool) -> Transport {
        Transport {
            deferred,
            refuse: None,
            in_flight: Vec::new(),
            sends: 0,
            flushes: 0,
            polls: 0,
            next_token: 40,
            wire: Vec::new(),
        }
    }

    fn count(&self, kind: Kind) -> usize {
        self.in_flight.iter().filter(|op| op.1 == kind).count()
    }

    fn accept(&mut self, kind: Kind) -> Token {
        let token = Token { raw: self.next_token };
        self.next_token += 1;
        self.in_flight.push((token, kind, Status::InProgress));
        token
    }

    fn submit_send(&mut self, handle: Handle, buf: &[u8]) -> Operation<()> {
        assert_eq!(handle, Handle { raw: 3 });
        assert_eq!(self.count(Kind::Send), 0, "a second send was submitted");
        self.sends += 1;
        if let Some(cause) = self.refuse {
            return Operation::ImmediateError(cause);
        }
        self.wire.extend_from_slice(buf);
        if self.deferred {
            Operation::InFlight(self.accept(Kind::Send))
        } else {
            Operation::ImmediateSuccess(())
        }
    }

    fn submit_flush(&mut self, handle: Handle) -> Operation<()> {
        assert_eq!(handle, Handle { raw: 3 });
        assert_eq!(self.count(Kind::Flush), 0, "a second flush was submitted");
        self.flushes += 1;
        if let Some(cause) = self.refuse {
            return Operation::ImmediateError(cause);
        }
        if self.count(Kind::Send) > 0 {
            Operation::InFlight(self.accept(Kind::Flush))
        } else {
            Operation::ImmediateSuccess(())
        }
    }

    /// The transport resolves the operation; the adapter has yet to poll it.
    fn resolve(&mut self, token: Token, status: Status) {
        let op = self.in_flight.iter_mut().find(|op| op.0 == token).expect("no such operation");
        op.2 = status;
    }

    fn poll(&mut self, token: Token) -> Poll<Result<(), Error>> {
        self.polls += 1;
        let at = self.in_flight.iter().position(|op| op.0 == token).expect("no such operation");
        let (_, kind, mut status) = self.in_flight[at];
        if kind == Kind::Flush && status == Status::InProgress {
            let ahead = self.in_flight[..at].iter().any(|op| op.1 == Kind::Send);
            if !ahead {
                status = Status::Done;
            }
        }
        if status != Status::InProgress {
            self.in_flight.remove(at);
        }
        poll_normal(status)
    }
}

fn live() -> Endpoint {
    Endpoint::new(Handle { raw: 3 })
}

fn write(
    writer: &mut AsyncStreamWriterEndpoint,
    endpoint: &Endpoint,
    transport: &mut Transport,
    buf: &[u8],
) -> Poll<Result<usize, Error>> {
    let mut event = Event::Call;
    loop {
        event = match writer.poll_write(endpoint, event, buf) {
            Step::Ready(result) => return Poll::Ready(result),
            Step::Pending => return Poll::Pending,
            Step::Submit(handle) => Event::Submitted(transport.submit_send(handle, buf)),
            Step::Poll(token) => Event::Polled(transport.poll(token)),
        };
    }
}

fn flush(
    writer: &mut AsyncStreamWriterEndpoint,
    endpoint: &Endpoint,
    transport: &mut Transport,
) -> Poll<Result<(), Error>> {
    let mut event = Event::Call;
    loop {
        event = match writer.poll_flush(endpoint, event) {
            Step::Ready(result) => return Poll::Ready(result),
            Step::Pending => return Poll::Pending,
            Step::Submit(handle) => Event::Submitted(transport.submit_flush(handle)),
            Step::Poll(token) => Event::Polled(transport.poll(token)),
        };
    }
}

fn close(writer: &mut AsyncStreamWriterEndpoint, transport: &mut Transport) -> Poll<Result<(), Error>> {
    let mut event = Event::Call;
    loop {
        event = match writer.poll_close(event) {
            Step::Ready(result) => return Poll::Ready(result),
            Step::Pending => return Poll::Pending,
            Step::Submit(_) => panic!("a close submits nothing"),
            Step::Poll(token) => Event::Polled(transport.poll(token)),
        };
    }
}

#[test]
fn immediate_send_reports_the_whole_buffer() {
    let endpoint = live();
    let mut transport = Transport::new(false);
    let mut writer = AsyncStreamWriterEndpoint::new();
    assert_eq!(write(&mut writer, &endpoint, &mut transport, b"hello"), Poll::Ready(Ok(5)));
    assert_eq!(write(&mut writer, &endpoint, &mut transport, b""), Poll::Ready(Ok(0)));
    assert_eq!(write(&mut writer, &endpoint, &mut transport, b", world"), Poll::Ready(Ok(7)));
    assert_eq!(transport.wire, b"hello, world");
    assert_eq!(transport.sends, 3);
    assert_eq!(writer.pending_send(), None);
}

#[test]
fn refused_send_is_a_transport_error_and_leaves_nothing_pending() {
    let endpoint = live();
    let mut transport = Transport::new(true);
    transport.refuse = Some(Cause { code: -3 });
    let mut writer = AsyncStreamWriterEndpoint::new();
    assert_eq!(
        write(&mut writer, &endpoint, &mut transport, b"abc"),
        Poll::Ready(Err(Error::Transport(Cause { code: -3 })))
    );
    assert_eq!(writer.pending_send(), None);
    assert_eq!(writer.pending_flush(), None);
    assert_eq!(transport.in_flight.len(), 0);

    transport.refuse = None;
    assert_eq!(write(&mut writer, &endpoint, &mut transport, b"abc"), Poll::Pending);
    assert_eq!(transport.sends, 2);
}

#[test]
fn send_in_flight_is_polled_and_never_submitted_again() {
    let endpoint = live();
    let mut transport = Transport::new(true);
    let mut writer = AsyncStreamWriterEndpoint::new();
    assert_eq!(write(&mut writer, &endpoint, &mut transport, b"abcd"), Poll::Pending);
    assert_eq!(writer.pending_send(), Some(Token { raw: 40 }));
    assert_eq!(write(&mut writer, &endpoint, &mut transport, b"abcd"), Poll::Pending);
    assert_eq!(write(&mut writer, &endpoint, &mut transport, b"abcd"), Poll::Pending);
    assert_eq!(transport.sends, 1);
    assert_eq!(transport.polls, 3);
    assert_eq!(transport.wire, b"abcd");

    transport.resolve(Token { raw: 40 }, Status::Done);
    assert_eq!(write(&mut writer, &endpoint, &mut transport, b"abcd"), Poll::Ready(Ok(4)));
    assert_eq!(writer.pending_send(), None);
    assert_eq!(transport.sends, 1);
}

#[test]
fn resolved_send_reports_the_length_it_was_submitted_with() {
    let endpoint = live();
    let mut transport = Transport::new(true);
    let mut writer = AsyncStreamWriterEndpoint::new();
    assert_eq!(write(&mut writer, &endpoint, &mut transport, b"abcdef"), Poll::Pending);
    transport.resolve(Token { raw: 40 }, Status::Done);
    assert_eq!(write(&mut writer, &endpoint, &mut transport, b"xy"), Poll::Ready(Ok(6)));
    assert_eq!(transport.wire, b"abcdef");
}

#[test]
fn send_that_fails_in_flight_leaves_the_slot() {
    let endpoint = live();
    let mut transport = Transport::new(true);
    let mut writer = AsyncStreamWriterEndpoint::new();
    assert_eq!(write(&mut writer, &endpoint, &mut transport, b"abc"), Poll::Pending);
    transport.resolve(Token { raw: 40 }, Status::Failed(Cause { code: -80 }));
    assert_eq!(
        write(&mut writer, &endpoint, &mut transport, b"abc"),
        Poll::Ready(Err(Error::Transport(Cause { code: -80 })))
    );
    assert_eq!(writer.pending_send(), None);
    assert_eq!(write(&mut writer, &endpoint, &mut transport, b"abc"), Poll::Pending);
    assert_eq!(transport.sends, 2);
}

#[test]
fn cancelled_send_is_reported_as_cancelled() {
    let endpoint = live();
    let mut transport = Transport::new(true);
    let mut writer = AsyncStreamWriterEndpoint::new();
    assert_eq!(write(&mut writer, &endpoint, &mut transport, b"abc"), Poll::Pending);
    transport.resolve(Token { raw: 40 }, Status::Cancelled);
    assert_eq!(
        write(&mut writer, &endpoint, &mut transport, b"abc"),
        Poll::Ready(Err(Error::Cancelled))
    );
    assert_eq!(writer.pending_send(), None);
}

#[test]
fn write_and_flush_on_an_invalid_connection_fail_without_a_submission() {
    let mut endpoint = live();
    endpoint.invalidate();
    let mut transport = Transport::new(false);
    let mut writer = AsyncStreamWriterEndpoint::new();
    assert_eq!(
        write(&mut writer, &endpoint, &mut transport, b"abc"),
        Poll::Ready(Err(Error::ConnectionInvalid))
    );
    assert_eq!(
        flush(&mut writer, &endpoint, &mut transport),
        Poll::Ready(Err(Error::ConnectionInvalid))
    );
    assert_eq!(transport.sends, 0);
    assert_eq!(transport.flushes, 0);
}

#[test]
fn flush_with_nothing_ahead_is_done_at_once() {
    let endpoint = live();
    let mut transport = Transport::new(false);
    let mut writer = AsyncStreamWriterEndpoint::new();
    assert_eq!(write(&mut writer, &endpoint, &mut transport, b"abc"), Poll::Ready(Ok(3)));
    assert_eq!(flush(&mut writer, &endpoint, &mut transport), Poll::Ready(Ok(())));
    assert_eq!(transport.flushes, 1);
    assert_eq!(writer.pending_flush(), None);
}

#[test]
fn flush_is_not_ready_before_the_send_ahead_of_it_has_resolved() {
    let endpoint = live();
    let mut transport = Transport::new(true);
    let mut writer = AsyncStreamWriterEndpoint::new();
    assert_eq!(write(&mut writer, &endpoint, &mut transport, b"0123456789"), Poll::Pending);
    let send = writer.pending_send().unwrap();

    assert_eq!(flush(&mut writer, &endpoint, &mut transport), Poll::Pending);
    let barrier = writer.pending_flush().unwrap();
    assert_ne!(send, barrier);
    assert_eq!(flush(&mut writer, &endpoint, &mut transport), Poll::Pending);
    assert_eq!(flush(&mut writer, &endpoint, &mut transport), Poll::Pending);
    assert_eq!(transport.flushes, 1);
    assert_eq!(writer.pending_send(), Some(send));

    transport.resolve(send, Status::Done);
    assert_eq!(write(&mut writer, &endpoint, &mut transport, b"0123456789"), Poll::Ready(Ok(10)));
    assert_eq!(flush(&mut writer, &endpoint, &mut transport), Poll::Ready(Ok(())));
    assert_eq!(writer.pending_flush(), None);
    assert_eq!(transport.flushes, 1);
    assert_eq!(transport.in_flight.len(), 0);
}

#[test]
fn flush_and_send_keep_to_their_own_slots() {
    let endpoint = live();
    let mut transport = Transport::new(true);
    let mut writer = AsyncStreamWriterEndpoint::new();
    assert_eq!(write(&mut writer, &endpoint, &mut transport, b"ab"), Poll::Pending);
    assert_eq!(flush(&mut writer, &endpoint, &mut transport), Poll::Pending);
    let send = writer.pending_send().unwrap();
    let barrier = writer.pending_flush().unwrap();

    transport.resolve(barrier, Status::Failed(Cause { code: -5 }));
    assert_eq!(
        flush(&mut writer, &endpoint, &mut transport),
        Poll::Ready(Err(Error::Transport(Cause { code: -5 })))
    );
    assert_eq!(writer.pending_flush(), None);
    assert_eq!(writer.pending_send(), Some(send));
}

#[test]
fn refused_flush_is_a_transport_error() {
    let endpoint = live();
    let mut transport = Transport::new(false);
    transport.refuse = Some(Cause { code: -12 });
    let mut writer = AsyncStreamWriterEndpoint::new();
    assert_eq!(
        flush(&mut writer, &endpoint, &mut transport),
        Poll::Ready(Err(Error::Transport(Cause { code: -12 })))
    );
    assert_eq!(writer.pending_flush(), None);
}

#[test]
fn close_with_nothing_in_flight_closes_at_once() {
    let endpoint = live();
    let mut transport = Transport::new(false);
    let mut writer = AsyncStreamWriterEndpoint::new();
    assert!(!writer.is_closed());
    assert_eq!(close(&mut writer, &mut transport), Poll::Ready(Ok(())));
    assert!(writer.is_closed());
    assert_eq!(close(&mut writer, &mut transport), Poll::Ready(Ok(())));
    assert_eq!(
        write(&mut writer, &endpoint, &mut transport, b"late"),
        Poll::Ready(Err(Error::Closed))
    );
    assert_eq!(flush(&mut writer, &endpoint, &mut transport), Poll::Ready(Err(Error::Closed)));
    assert_eq!(transport.sends, 0);
    assert_eq!(transport.flushes, 0);
    assert!(writer.is_closed());
}

#[test]
fn close_waits_for_the_send_and_then_for_the_flush() {
    let endpoint = live();
    let mut transport = Transport::new(true);
    let mut writer = AsyncStreamWriterEndpoint::new();
    assert_eq!(write(&mut writer, &endpoint, &mut transport, b"abc"), Poll::Pending);
    assert_eq!(flush(&mut writer, &endpoint, &mut transport), Poll::Pending);
    let send = writer.pending_send().unwrap();

    assert_eq!(close(&mut writer, &mut transport), Poll::Pending);
    assert!(!writer.is_closed());
    assert_eq!(writer.pending_send(), Some(send));

    transport.resolve(send, Status::Done);
    assert_eq!(close(&mut writer, &mut transport), Poll::Ready(Ok(())));
    assert!(writer.is_closed());
    assert_eq!(writer.pending_send(), None);
    assert_eq!(writer.pending_flush(), None);
    assert_eq!(transport.in_flight.len(), 0);
    assert_eq!(transport.sends, 1);
    assert_eq!(transport.flushes, 1);
}

#[test]
fn close_reports_a_failed_send_and_closes_on_the_next_call() {
    let mut transport = Transport::new(true);
    let endpoint = live();
    let mut writer = AsyncStreamWriterEndpoint::new();
    assert_eq!(write(&mut writer, &endpoint, &mut transport, b"abc"), Poll::Pending);
    transport.resolve(Token { raw: 40 }, Status::Failed(Cause { code: -9 }));
    assert_eq!(
        close(&mut writer, &mut transport),
        Poll::Ready(Err(Error::Transport(Cause { code: -9 })))
    );
    assert!(!writer.is_closed());
    assert_eq!(writer.pending_send(), None);
    assert_eq!(close(&mut writer, &mut transport), Poll::Ready(Ok(())));
    assert!(writer.is_closed());
}

#[test]
fn writer_refuses_answers_out_of_turn() {
    let endpoint = live();
    let mut writer = AsyncStreamWriterEndpoint::new();
    let done = || Event::Polled(Poll::Ready(Ok(())));
    assert_eq!(writer.poll_write(&endpoint, done(), b"abc"), Step::Ready(Err(Error::OutOfTurn)));
    assert_eq!(writer.poll_flush(&endpoint, done()), Step::Ready(Err(Error::OutOfTurn)));
    assert_eq!(writer.poll_close(done()), Step::Ready(Err(Error::OutOfTurn)));
    assert_eq!(
        writer.poll_close(Event::Submitted(Operation::ImmediateSuccess(()))),
        Step::Ready(Err(Error::OutOfTurn))
    );
    assert!(!writer.is_closed());

    let first = Event::Submitted(Operation::InFlight(Token { raw: 1 }));
    assert_eq!(writer.poll_write(&endpoint, first, b"abc"), Step::Poll(Token { raw: 1 }));
    let second = Event::Submitted(Operation::InFlight(Token { raw: 2 }));
    assert_eq!(writer.poll_write(&endpoint, second, b"abc"), Step::Ready(Err(Error::OutOfTurn)));
    assert_eq!(writer.pending_send(), Some(Token { raw: 1 }));

    let first = Event::Submitted(Operation::InFlight(Token { raw: 3 }));
    assert_eq!(writer.poll_flush(&endpoint, first), Step::Poll(Token { raw: 3 }));
    let second = Event::Submitted(Operation::ImmediateSuccess(()));
    assert_eq!(writer.poll_flush(&endpoint, second), Step::Ready(Err(Error::OutOfTurn)));
    assert_eq!(writer.pending_flush(), Some(Token { raw: 3 }));
}

#[test]
fn abandoned_writer_hands_out_its_tokens() {
    let endpoint = live();
    let mut transport = Transport::new(true);
    let mut writer = AsyncStreamWriterEndpoint::new();
    assert_eq!(writer.abandon(), (None, None));
    assert_eq!(write(&mut writer, &endpoint, &mut transport, b"abc"), Poll::Pending);
    assert_eq!(flush(&mut writer, &endpoint, &mut transport), Poll::Pending);
    assert_eq!(writer.abandon(), (Some(Token { raw: 40 }), Some(Token { raw: 41 })));
    assert_eq!(writer.pending_send(), None);
    assert_eq!(writer.pending_flush(), None);
    assert!(!writer.is_closed());
}
