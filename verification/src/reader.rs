//! The pull side: a byte-stream reader over repeated receives.
use vstd::prelude::*;
use vstd::math::min;
use crate::endpoint::{Endpoint, Handle};
use crate::error::Error;
use crate::operation::{Event, Operation, Poll, Token};

verus! {

/// The buffer of a receive that has resolved, with the byte count that the
/// transport reported for it.
#[derive(Debug, PartialEq, Eq)]
pub struct Chunk {
    pub bytes: Vec<u8>,
    pub length: usize,
}

impl Chunk {
    /// The bytes that the transport delivered: the first `length` bytes of the
    /// buffer. A count beyond the buffer's size stands for the whole buffer.
    pub open spec fn received(self) -> Seq<u8> {
        self.bytes@.take(min(self.length as int, self.bytes@.len() as int))
    }
}

/// The outcome of one step of a read.
#[derive(Debug, PartialEq, Eq)]
pub enum ReadStep {
    /// The read is over: so many bytes stand at the start of the destination,
    /// or the read failed.
    Ready(Result<usize, Error>),
    /// A receive is in flight. The caller suspends, and enters again with
    /// [`Event::Call`] once the completion callback has woken it.
    Pending,
    /// Submit a receive into this buffer on this handle, and come back with
    /// [`Event::Submitted`]. The buffer stays with the driver until the
    /// receive resolves.
    Submit(Handle, Vec<u8>),
    /// Query the receive with this token and register for its completion, and
    /// come back with [`Event::Polled`].
    Poll(Token),
}

/// A [`ReadStep`] in the terms of the model: a count for the bytes delivered,
/// a size for the buffer to submit.
pub enum ReadAction {
    Ready(Result<nat, Error>),
    Pending,
    Submit(Handle, nat),
    Poll(Token),
}

impl View for ReadStep {
    type V = ReadAction;

    open spec fn view(&self) -> ReadAction {
        match *self {
            ReadStep::Ready(Ok(n)) => ReadAction::Ready(Ok(n as nat)),
            ReadStep::Ready(Err(e)) => ReadAction::Ready(Err(e)),
            ReadStep::Pending => ReadAction::Pending,
            ReadStep::Submit(handle, chunk) => ReadAction::Submit(handle, chunk@.len()),
            ReadStep::Poll(token) => ReadAction::Poll(token),
        }
    }
}

/// What a reader holds between two steps.
pub struct ReaderState {
    /// The bytes received and not yet handed to the caller.
    pub remainder: Seq<u8>,
    /// The receive in flight, if there is one.
    pub pending: Option<Token>,
}

/// What one step of a read does.
pub struct ReadOutcome {
    pub state: ReaderState,
    /// The bytes written to the start of the destination.
    pub delivered: Seq<u8>,
    pub action: ReadAction,
}

impl ReaderState {
    pub open spec fn fresh() -> ReaderState {
        ReaderState { remainder: Seq::empty(), pending: None }
    }

    /// Bytes are retained only while no receive is in flight.
    pub open spec fn wf(self) -> bool {
        self.remainder.len() > 0 ==> self.pending is None
    }

    /// Hands `bytes` to a destination with `room` bytes: as many as fit are
    /// delivered, the rest is retained, and no receive is in flight.
    pub open spec fn deliver(bytes: Seq<u8>, room: nat) -> ReadOutcome {
        let n = min(bytes.len() as int, room as int);
        ReadOutcome {
            state: ReaderState { remainder: bytes.skip(n), pending: None },
            delivered: bytes.take(n),
            action: ReadAction::Ready(Ok(n as nat)),
        }
    }

    /// Leaves the state as it is and writes nothing.
    pub open spec fn answer(self, action: ReadAction) -> ReadOutcome {
        ReadOutcome { state: self, delivered: Seq::empty(), action }
    }

    /// The caller enters a read. Retained bytes are served first, without
    /// the transport. Then a receive in flight is polled. Only with neither
    /// is a new receive asked for, sized to the destination; an empty
    /// destination gets its zero bytes at once.
    pub open spec fn call(self, live: Option<Handle>, room: nat) -> ReadOutcome {
        if self.remainder.len() > 0 {
            ReaderState::deliver(self.remainder, room)
        } else if let Some(token) = self.pending {
            self.answer(ReadAction::Poll(token))
        } else if room == 0 {
            self.answer(ReadAction::Ready(Ok(0)))
        } else if let Some(handle) = live {
            self.answer(ReadAction::Submit(handle, room))
        } else {
            self.answer(ReadAction::Ready(Err(Error::ConnectionInvalid)))
        }
    }

    /// The transport has answered a submission. The answer is out of turn
    /// where the reader cannot have asked for a receive.
    pub open spec fn submitted(self, operation: Operation<Chunk>, room: nat) -> ReadOutcome {
        if self.remainder.len() > 0 || self.pending is Some {
            self.answer(ReadAction::Ready(Err(Error::OutOfTurn)))
        } else {
            match operation {
                Operation::ImmediateSuccess(chunk) => ReaderState::deliver(chunk.received(), room),
                Operation::ImmediateError(cause) => self.answer(
                    ReadAction::Ready(Err(Error::Transport(cause))),
                ),
                Operation::InFlight(token) => ReadOutcome {
                    state: ReaderState { remainder: self.remainder, pending: Some(token) },
                    delivered: Seq::empty(),
                    action: ReadAction::Poll(token),
                },
            }
        }
    }

    /// The receive in flight has been polled. Once it has resolved, well or
    /// badly, it leaves the slot.
    pub open spec fn polled(self, polled: Poll<Result<Chunk, Error>>, room: nat) -> ReadOutcome {
        if self.pending is None {
            self.answer(ReadAction::Ready(Err(Error::OutOfTurn)))
        } else {
            match polled {
                Poll::Pending => self.answer(ReadAction::Pending),
                Poll::Ready(Ok(chunk)) => ReaderState::deliver(chunk.received(), room),
                Poll::Ready(Err(e)) => ReadOutcome {
                    state: ReaderState { remainder: self.remainder, pending: None },
                    delivered: Seq::empty(),
                    action: ReadAction::Ready(Err(e)),
                },
            }
        }
    }

    /// One step of a read into a destination with `room` bytes, on a
    /// connection whose live handle is `live`.
    pub open spec fn step(self, live: Option<Handle>, event: Event<Chunk>, room: nat) -> ReadOutcome {
        match event {
            Event::Call => self.call(live, room),
            Event::Submitted(operation) => self.submitted(operation, room),
            Event::Polled(polled) => self.polled(polled, room),
        }
    }
}

/// The destination after a step that delivered `delivered` to its start.
pub open spec fn written(before: Seq<u8>, delivered: Seq<u8>) -> Seq<u8> {
    delivered + before.skip(delivered.len() as int)
}

/// The bytes that an event brings from the transport: those of a receive that
/// resolved with success, at submission or at a poll.
pub open spec fn arrived(event: Event<Chunk>) -> Seq<u8> {
    match event {
        Event::Submitted(Operation::ImmediateSuccess(chunk)) => chunk.received(),
        Event::Polled(Poll::Ready(Ok(chunk))) => chunk.received(),
        _ => Seq::empty(),
    }
}

/// Whether `event` brings a resolved receive to a reader that can take it:
/// the answer to a submission where nothing is retained or in flight, or the
/// outcome of a poll where a receive is in flight.
pub open spec fn arrives(state: ReaderState, event: Event<Chunk>) -> bool {
    match event {
        Event::Submitted(Operation::ImmediateSuccess(_)) => state.remainder.len() == 0
            && state.pending is None,
        Event::Polled(Poll::Ready(Ok(_))) => state.wf() && state.pending is Some,
        _ => false,
    }
}

/// What a transport that has `stream` at hand puts into a receive buffer of
/// `size` bytes: the next bytes of the stream, as many as fit.
pub open spec fn next_bytes(stream: Seq<u8>, size: nat) -> Seq<u8> {
    stream.take(min(stream.len() as int, size as int))
}

/// How the caller cuts up its destination does not show in the bytes it gets.
///
/// When a receive has resolved, a read into `d1` bytes followed by a read
/// into `d2` bytes delivers, one after the other, exactly the bytes that a
/// single read into `d1 + d2` bytes delivers, and leaves the reader in the
/// same state. The second read gets its bytes from what the first retained
/// and not from the transport.
pub proof fn lemma_split_read_of_chunk(
    state: ReaderState,
    live: Option<Handle>,
    event: Event<Chunk>,
    d1: nat,
    d2: nat,
)
    requires
        arrives(state, event),
    ensures
        ({
            let first = state.step(live, event, d1);
            let second = first.state.step(live, Event::Call, d2);
            let single = state.step(live, event, d1 + d2);
            &&& single.delivered == next_bytes(arrived(event), d1 + d2)
            &&& first.delivered + second.delivered == single.delivered
            &&& second.state == single.state
            &&& first.state.remainder.len() > 0 ==> second.action == ReadAction::Ready(
                Ok::<nat, Error>(second.delivered.len()),
            )
        }),
{
    let bytes = arrived(event);
    let first = state.step(live, event, d1);
    let second = first.state.step(live, Event::Call, d2);
    let single = state.step(live, event, d1 + d2);
    assert(first == ReaderState::deliver(bytes, d1));
    assert(single == ReaderState::deliver(bytes, d1 + d2));
    assert(first.delivered + second.delivered =~= single.delivered);
    assert(second.state.remainder =~= single.state.remainder);
}

/// Reading a stream in two reads or in one gives the same bytes.
///
/// The transport has `stream` at hand and answers every receive at once with
/// the next bytes of it. A reader with nothing retained and nothing in flight
/// reads into `d1` bytes and then into `d2` bytes: what the two reads deliver,
/// one after the other, is what a single read into `d1 + d2` bytes delivers.
/// `c1`, `c2` and `c` are the buffers of the three receives as the transport
/// hands them back.
pub proof fn lemma_split_read_of_stream(
    live: Option<Handle>,
    stream: Seq<u8>,
    d1: nat,
    d2: nat,
    c1: Chunk,
    c2: Chunk,
    c: Chunk,
)
    requires
        d1 > 0,
        d2 > 0,
        c1.received() == next_bytes(stream, d1),
        c2.received() == next_bytes(stream.skip(c1.received().len() as int), d2),
        c.received() == next_bytes(stream, d1 + d2),
    ensures
        ({
            let fresh = ReaderState::fresh();
            let first = fresh.step(live, Event::Submitted(Operation::ImmediateSuccess(c1)), d1);
            let second = first.state.step(
                live,
                Event::Submitted(Operation::ImmediateSuccess(c2)),
                d2,
            );
            let single = fresh.step(
                live,
                Event::Submitted(Operation::ImmediateSuccess(c)),
                d1 + d2,
            );
            &&& first.state == fresh
            &&& second.state == fresh
            &&& single.state == fresh
            &&& first.delivered + second.delivered == single.delivered
            &&& single.delivered == next_bytes(stream, d1 + d2)
        }),
{
    let fresh = ReaderState::fresh();
    let first = fresh.step(live, Event::Submitted(Operation::ImmediateSuccess(c1)), d1);
    let second = first.state.step(live, Event::Submitted(Operation::ImmediateSuccess(c2)), d2);
    let single = fresh.step(live, Event::Submitted(Operation::ImmediateSuccess(c)), d1 + d2);
    assert(first.state.remainder =~= Seq::<u8>::empty());
    assert(first.state == fresh);
    assert(second.state.remainder =~= Seq::<u8>::empty());
    assert(single.state.remainder =~= Seq::<u8>::empty());
    assert(first.delivered =~= c1.received());
    assert(second.delivered =~= c2.received());
    assert(single.delivered =~= c.received());
    assert(first.delivered + second.delivered =~= single.delivered);
}

/// Copies the start of `bytes` over the start of `buf`, as far as both reach.
fn copy_prefix(buf: &mut [u8], bytes: &Vec<u8>) -> (n: usize)
    ensures
        n == min(bytes@.len() as int, old(buf)@.len() as int),
        final(buf)@ == written(old(buf)@, bytes@.take(n as int)),
{
    let n: usize = if bytes.len() <= buf.len() { bytes.len() } else { buf.len() };
    let mut i: usize = 0;
    while i < n
        invariant
            i <= n,
            n <= bytes@.len(),
            n <= buf@.len(),
            buf@.len() == old(buf)@.len(),
            buf@ == written(old(buf)@, bytes@.take(i as int)),
        decreases n - i,
    {
        buf[i] = bytes[i];
        i = i + 1;
    }
    n
}

/// A byte-stream reader over a connection. It keeps what a receive brought
/// beyond the caller's destination, and the one receive that is in flight.
#[derive(Debug)]
pub struct AsyncStreamReaderEndpoint {
    buffer: Vec<u8>,
    handle: Option<Token>,
}

impl View for AsyncStreamReaderEndpoint {
    type V = ReaderState;

    closed spec fn view(&self) -> ReaderState {
        ReaderState { remainder: self.buffer@, pending: self.handle }
    }
}

impl AsyncStreamReaderEndpoint {
    #[verifier::type_invariant]
    spec fn inv(&self) -> bool {
        self@.wf()
    }

    /// A reader that retains nothing and waits for nothing.
    pub fn new() -> (reader: AsyncStreamReaderEndpoint)
        ensures
            reader@ == ReaderState::fresh(),
    {
        AsyncStreamReaderEndpoint { buffer: Vec::new(), handle: None }
    }

    /// Hands the bytes of `bytes` to `buf` and retains what does not fit.
    fn deliver(&mut self, bytes: Vec<u8>, buf: &mut [u8]) -> (step: ReadStep)
        ensures
            final(self)@ == ReaderState::deliver(bytes@, old(buf)@.len()).state,
            final(buf)@ == written(old(buf)@, ReaderState::deliver(bytes@, old(buf)@.len()).delivered),
            step@ == ReaderState::deliver(bytes@, old(buf)@.len()).action,
    {
        let mut bytes = bytes;
        let n = copy_prefix(buf, &bytes);
        let rest = bytes.split_off(n);
        self.handle = None;
        self.buffer = rest;
        ReadStep::Ready(Ok(n))
    }

    /// One step of a read into `buf`.
    ///
    /// A read begins with [`Event::Call`]. Where the step asks for a
    /// submission or a poll, the driver performs it on the transport and
    /// calls again with the answer, until the step is `Ready` or `Pending`.
    pub fn poll_read(&mut self, endpoint: &Endpoint, event: Event<Chunk>, buf: &mut [u8]) -> (step:
        ReadStep)
        ensures
            final(self)@ == old(self)@.step(endpoint@, event, old(buf)@.len()).state,
            final(buf)@ == written(
                old(buf)@,
                old(self)@.step(endpoint@, event, old(buf)@.len()).delivered,
            ),
            step@ == old(self)@.step(endpoint@, event, old(buf)@.len()).action,
            final(self)@.wf(),
            final(buf)@.len() == old(buf)@.len(),
            // A receive is asked for only where none is in flight and nothing
            // is retained, never for an empty destination, and on the live
            // handle. Its buffer has the size of the destination and holds
            // zeros.
            step matches ReadStep::Submit(handle, chunk) ==> {
                &&& event is Call
                &&& endpoint@ == Some(handle)
                &&& old(self)@.pending is None
                &&& old(self)@.remainder.len() == 0
                &&& chunk@.len() == old(buf)@.len() > 0
                &&& forall|i: int| 0 <= i < chunk@.len() ==> chunk@[i] == 0
            },
            // A read is over after three steps at most: an answer to a
            // submission is followed by one poll, and a poll by none.
            event is Submitted ==> step is Ready || step is Poll,
            event is Polled ==> step is Ready || step is Pending,
            // A read that fails writes nothing, and a receive that fails
            // leaves the slot.
            step matches ReadStep::Ready(Err(e)) ==> {
                &&& final(buf)@ == old(buf)@
                &&& e != Error::OutOfTurn ==> final(self)@.pending is None
            },
            // A receive that has resolved leaves the slot and ends the read.
            event matches Event::Polled(Poll::Ready(_)) ==> step is Ready && final(self)@.pending
                is None,
            // A read into an empty destination with no receive in flight
            // gives zero bytes at once.
            event is Call && old(buf)@.len() == 0 && old(self)@.pending is None ==> {
                &&& step == ReadStep::Ready(Ok(0))
                &&& final(self)@ == old(self)@
            },
            // A receive that resolved at submission with fewer bytes than the
            // destination holds gives exactly those bytes, and leaves nothing
            // behind.
            event matches Event::Submitted(Operation::ImmediateSuccess(chunk)) ==> (old(
                self,
            )@.remainder.len() == 0 && old(self)@.pending is None && chunk.length
                <= chunk.bytes@.len() <= old(buf)@.len() ==> {
                &&& step == ReadStep::Ready(Ok(chunk.length))
                &&& final(buf)@ == chunk.bytes@.take(chunk.length as int) + old(buf)@.skip(
                    chunk.length as int,
                )
                &&& final(self)@ == ReaderState::fresh()
            }),
    {
        proof {
            use_type_invariant(&*self);
        }
        let ghost before = self@;
        let ghost arrival = arrived(event);
        let step = match event {
            Event::Call => {
                if self.buffer.len() > 0 {
                    let mut retained: Vec<u8> = Vec::new();
                    core::mem::swap(&mut self.buffer, &mut retained);
                    self.deliver(retained, buf)
                } else if let Some(token) = self.handle {
                    ReadStep::Poll(token)
                } else if buf.len() == 0 {
                    ReadStep::Ready(Ok(0))
                } else {
                    match endpoint.get_handle() {
                        Ok(handle) => ReadStep::Submit(handle, vec![0u8; buf.len()]),
                        Err(e) => ReadStep::Ready(Err(e)),
                    }
                }
            },
            Event::Submitted(operation) => {
                if self.buffer.len() > 0 || self.handle.is_some() {
                    ReadStep::Ready(Err(Error::OutOfTurn))
                } else {
                    match operation {
                        Operation::ImmediateSuccess(chunk) => self.receive(chunk, buf),
                        Operation::ImmediateError(cause) => ReadStep::Ready(
                            Err(Error::Transport(cause)),
                        ),
                        Operation::InFlight(token) => {
                            self.handle = Some(token);
                            ReadStep::Poll(token)
                        },
                    }
                }
            },
            Event::Polled(polled) => {
                if self.handle.is_none() {
                    ReadStep::Ready(Err(Error::OutOfTurn))
                } else {
                    match polled {
                        Poll::Pending => ReadStep::Pending,
                        Poll::Ready(Ok(chunk)) => self.receive(chunk, buf),
                        Poll::Ready(Err(e)) => {
                            self.handle = None;
                            ReadStep::Ready(Err(e))
                        },
                    }
                }
            },
        };
        proof {
            if before.remainder.len() > 0 && old(buf)@.len() == 0 {
                assert(self@.remainder =~= before.remainder);
            }
            if step is Ready && step->Ready_0 is Err {
                assert(buf@ =~= old(buf)@);
            }
            if arrival.len() <= old(buf)@.len() {
                assert(arrival.skip(arrival.len() as int) =~= Seq::<u8>::empty());
                assert(arrival.take(arrival.len() as int) =~= arrival);
            }
        }
        step
    }

    /// The number of bytes retained for the next read.
    pub fn buffered(&self) -> (n: usize)
        ensures
            n == self@.remainder.len(),
    {
        self.buffer.len()
    }

    /// The token of the receive in flight.
    pub fn pending(&self) -> (token: Option<Token>)
        ensures
            token == self@.pending,
    {
        self.handle
    }

    /// Gives up the read. The reader lets go of what it retains and of the
    /// receive in flight, whose token it returns: the driver cancels that
    /// operation on the transport, or detaches it so that its completion
    /// finds nobody to wake.
    pub fn abandon(&mut self) -> (token: Option<Token>)
        ensures
            token == old(self)@.pending,
            final(self)@ == ReaderState::fresh(),
    {
        let token = self.handle;
        self.handle = None;
        self.buffer = Vec::new();
        token
    }

    /// Takes a resolved receive: what the transport delivered goes to `buf`,
    /// and what does not fit is retained.
    fn receive(&mut self, chunk: Chunk, buf: &mut [u8]) -> (step: ReadStep)
        ensures
            final(self)@ == ReaderState::deliver(chunk.received(), old(buf)@.len()).state,
            final(buf)@ == written(
                old(buf)@,
                ReaderState::deliver(chunk.received(), old(buf)@.len()).delivered,
            ),
            step@ == ReaderState::deliver(chunk.received(), old(buf)@.len()).action,
    {
        let ghost received = chunk.received();
        let Chunk { bytes, length } = chunk;
        let mut bytes = bytes;
        bytes.truncate(length);
        assert(bytes@ =~= received);
        self.deliver(bytes, buf)
    }
}

} // verus!
