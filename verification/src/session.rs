//! Whole sessions between a driver and an adapter, and what holds of them.
//!
//! A step of an adapter only ever sees one event. What the adapters are for
//! shows over a sequence of steps: that no second operation of a kind is
//! submitted while one is in flight, and that the bytes reach the caller in
//! the order in which the transport delivered them. This module follows a
//! session step by step, keeps the books that the transport would keep, and
//! proves both for every session in which the driver answers what it was asked.
use vstd::prelude::*;
use crate::endpoint::Handle;
use crate::operation::{Event, Operation, Poll, Step, Token};
use crate::reader::{arrived, Chunk, ReadAction, ReaderState};
use crate::writer::WriterState;

verus! {

/// Whether the event tells of an operation that the transport has accepted
/// and not yet resolved.
pub open spec fn accepts<T>(event: Event<T>) -> bool {
    event matches Event::Submitted(Operation::InFlight(_))
}

/// Whether the event tells of an operation in flight that has resolved, well
/// or badly.
pub open spec fn resolves<T>(event: Event<T>) -> bool {
    event matches Event::Polled(Poll::Ready(_))
}

/// What the driver brings to one step of a read.
pub struct ReadInput {
    /// The live handle of the connection at the time of the step.
    pub live: Option<Handle>,
    pub event: Event<Chunk>,
    /// The size of the caller's destination.
    pub room: nat,
}

/// A reader in the middle of a session, with the books of the session.
pub struct ReadSession {
    pub state: ReaderState,
    /// What the last step asked or answered; `None` before the first step.
    pub last: Option<ReadAction>,
    /// The size of the destination at the last step.
    pub room: nat,
    /// The size of the buffer of the last receive that the reader asked for.
    pub requested: nat,
    /// The receives that the transport has accepted and not yet resolved.
    pub in_flight: int,
    /// All bytes that the transport has delivered, in the order in which
    /// their receives resolved.
    pub received: Seq<u8>,
    /// All bytes that the reader has handed to the caller, in order.
    pub delivered: Seq<u8>,
}

impl ReadSession {
    pub open spec fn start() -> ReadSession {
        ReadSession {
            state: ReaderState::fresh(),
            last: None,
            room: 0,
            requested: 0,
            in_flight: 0,
            received: Seq::empty(),
            delivered: Seq::empty(),
        }
    }

    /// Whether `input` is what a driver may bring next.
    ///
    /// A new call comes once the last call is over. An answer comes to the
    /// step that asked for it, in the same call and so with the same
    /// destination. A receive that has resolved comes back with the buffer
    /// that it was submitted with.
    pub open spec fn in_turn(self, input: ReadInput) -> bool {
        match input.event {
            Event::Call => self.last is None || self.last matches Some(ReadAction::Ready(_))
                || self.last matches Some(ReadAction::Pending),
            Event::Submitted(operation) => {
                &&& self.last matches Some(ReadAction::Submit(_, _))
                &&& input.room == self.room
                &&& operation matches Operation::ImmediateSuccess(chunk) ==> chunk.bytes@.len()
                    == self.requested
            },
            Event::Polled(polled) => {
                &&& self.last matches Some(ReadAction::Poll(_))
                &&& input.room == self.room
                &&& polled matches Poll::Ready(Ok(chunk)) ==> chunk.bytes@.len() == self.requested
            },
        }
    }

    pub open spec fn step(self, input: ReadInput) -> ReadSession {
        let outcome = self.state.step(input.live, input.event, input.room);
        ReadSession {
            state: outcome.state,
            last: Some(outcome.action),
            room: input.room,
            requested: match outcome.action {
                ReadAction::Submit(_, size) => size,
                _ => self.requested,
            },
            in_flight: self.in_flight + (if accepts(input.event) {
                1int
            } else {
                0int
            }) - (if resolves(input.event) {
                1int
            } else {
                0int
            }),
            received: self.received + arrived(input.event),
            delivered: self.delivered + outcome.delivered,
        }
    }

    /// The session after all of `inputs`.
    pub open spec fn run(self, inputs: Seq<ReadInput>) -> ReadSession
        decreases inputs.len(),
    {
        if inputs.len() == 0 {
            self
        } else {
            self.run(inputs.drop_last()).step(inputs.last())
        }
    }

    /// Whether every one of `inputs` comes in turn.
    pub open spec fn orderly(self, inputs: Seq<ReadInput>) -> bool
        decreases inputs.len(),
    {
        inputs.len() > 0 ==> self.orderly(inputs.drop_last()) && self.run(
            inputs.drop_last(),
        ).in_turn(inputs.last())
    }

    /// The books agree with the reader: what is in flight is what the slot
    /// holds, what was asked for fits the state, what is retained fits the
    /// buffer of the last receive, and what the transport has delivered is
    /// what the caller has got followed by what is retained.
    spec fn consistent(self) -> bool {
        &&& self.state.wf()
        &&& self.in_flight == if self.state.pending is Some {
            1int
        } else {
            0int
        }
        &&& self.received == self.delivered + self.state.remainder
        &&& self.state.remainder.len() <= self.requested
        &&& self.last matches Some(ReadAction::Submit(_, size)) ==> {
            &&& self.state.pending is None
            &&& self.state.remainder.len() == 0
            &&& size == self.room
            &&& size == self.requested
        }
        &&& self.last matches Some(ReadAction::Poll(token)) ==> self.state.pending == Some(token)
    }

    proof fn lemma_step_consistent(self, input: ReadInput)
        requires
            self.consistent(),
            self.in_turn(input),
        ensures
            self.step(input).consistent(),
            input.event matches Event::Submitted(Operation::ImmediateSuccess(_)) ==> self.step(
                input,
            ).state == ReaderState::fresh(),
    {
        let next = self.step(input);
        assert(next.received =~= next.delivered + next.state.remainder);
        if input.event matches Event::Submitted(Operation::ImmediateSuccess(chunk)) {
            assert(next.state.remainder =~= Seq::<u8>::empty());
        }
    }

    proof fn lemma_run_consistent(self, inputs: Seq<ReadInput>)
        requires
            self.consistent(),
            self.orderly(inputs),
        ensures
            self.run(inputs).consistent(),
        decreases inputs.len(),
    {
        if inputs.len() > 0 {
            self.lemma_run_consistent(inputs.drop_last());
            self.run(inputs.drop_last()).lemma_step_consistent(inputs.last());
        }
    }

    proof fn lemma_orderly_prefix(self, inputs: Seq<ReadInput>, k: int)
        requires
            self.orderly(inputs),
            0 <= k <= inputs.len(),
        ensures
            self.orderly(inputs.take(k)),
        decreases inputs.len(),
    {
        if k == inputs.len() {
            assert(inputs.take(k) =~= inputs);
        } else {
            assert(inputs.take(k) =~= inputs.drop_last().take(k));
            self.lemma_orderly_prefix(inputs.drop_last(), k);
        }
    }
}

/// At no point of a session is more than one receive in flight.
///
/// The driver may bring any events, with any answers of the transport in
/// them, as long as each comes in turn. After every step the transport has
/// accepted at most one receive that it has not resolved, and that one is the
/// receive in the reader's slot.
pub proof fn lemma_one_receive_in_flight(inputs: Seq<ReadInput>, k: int)
    requires
        ReadSession::start().orderly(inputs),
        0 <= k <= inputs.len(),
    ensures
        ({
            let session = ReadSession::start().run(inputs.take(k));
            &&& 0 <= session.in_flight <= 1
            &&& session.in_flight == 1 <==> session.state.pending is Some
            &&& session.last matches Some(ReadAction::Submit(_, _)) ==> session.in_flight == 0
        }),
{
    ReadSession::start().lemma_orderly_prefix(inputs, k);
    ReadSession::start().lemma_run_consistent(inputs.take(k));
}

/// The caller gets the bytes in the order in which they arrived, none lost,
/// none twice, none made up.
///
/// At every point of a session, what the reader has handed to the caller,
/// followed by what it retains, is what the transport has delivered so far.
pub proof fn lemma_bytes_in_order(inputs: Seq<ReadInput>, k: int)
    requires
        ReadSession::start().orderly(inputs),
        0 <= k <= inputs.len(),
    ensures
        ({
            let session = ReadSession::start().run(inputs.take(k));
            session.delivered + session.state.remainder == session.received
        }),
{
    ReadSession::start().lemma_orderly_prefix(inputs, k);
    ReadSession::start().lemma_run_consistent(inputs.take(k));
}

/// What the reader retains fits the buffer of the last receive it asked for,
/// and a receive that resolves at submission leaves nothing to retain.
///
/// The buffer of a receive has the size of the destination of the call that
/// asked for it. So bytes are retained only when a receive resolves in a
/// later call, into a destination that is smaller.
pub proof fn lemma_retained_within_buffer(inputs: Seq<ReadInput>, k: int)
    requires
        ReadSession::start().orderly(inputs),
        0 <= k <= inputs.len(),
    ensures
        ({
            let session = ReadSession::start().run(inputs.take(k));
            &&& session.state.remainder.len() <= session.requested
            &&& k > 0 ==> (inputs[k - 1].event matches Event::Submitted(
                Operation::ImmediateSuccess(_),
            ) ==> session.state == ReaderState::fresh())
        }),
{
    let start = ReadSession::start();
    start.lemma_orderly_prefix(inputs, k);
    start.lemma_run_consistent(inputs.take(k));
    if k > 0 {
        let upto = inputs.take(k);
        assert(upto.last() == inputs[k - 1]);
        start.lemma_run_consistent(upto.drop_last());
        start.run(upto.drop_last()).lemma_step_consistent(upto.last());
    }
}

/// The three functions of a writer.
pub enum Function {
    Write,
    Flush,
    Close,
}

/// What a step of a writer leaves the driver to do.
pub enum Ask {
    /// Nothing: the call is over, with a result or suspended.
    Nothing,
    Submit,
    Poll(Token),
}

pub open spec fn asks<T>(step: Step<T>) -> Ask {
    match step {
        Step::Ready(_) => Ask::Nothing,
        Step::Pending => Ask::Nothing,
        Step::Submit(_) => Ask::Submit,
        Step::Poll(token) => Ask::Poll(token),
    }
}

/// What the driver brings to one step of a writer.
pub struct WriteInput {
    /// The function that the step belongs to.
    pub function: Function,
    /// The live handle of the connection at the time of the step.
    pub live: Option<Handle>,
    pub event: Event<()>,
    /// The length of the caller's buffer; it counts for a write only.
    pub len: usize,
}

/// A writer in the middle of a session, with the books of the session.
pub struct WriteSession {
    pub state: WriterState,
    /// The function of the last step and what it left to do; `None` before
    /// the first step.
    pub last: Option<(Function, Ask)>,
    /// The sends that the transport has accepted and not yet resolved, by
    /// their tokens.
    pub sends: Set<Token>,
    /// The flushes that the transport has accepted and not yet resolved.
    pub flushes: Set<Token>,
}

impl WriteSession {
    pub open spec fn start() -> WriteSession {
        WriteSession {
            state: WriterState::fresh(),
            last: None,
            sends: Set::empty(),
            flushes: Set::empty(),
        }
    }

    /// Whether `input` is what a driver may bring next: the answer to what
    /// the last step asked for, to the function that asked, or a new call
    /// once the last call is over. A transport never names a new operation
    /// by the token of one that is still in flight.
    pub open spec fn in_turn(self, input: WriteInput) -> bool {
        match input.event {
            Event::Call => self.last matches Some((_, ask)) ==> ask is Nothing,
            Event::Submitted(operation) => {
                &&& self.last == Some((input.function, Ask::Submit))
                &&& operation matches Operation::InFlight(token) ==> !self.sends.contains(token)
                    && !self.flushes.contains(token)
            },
            Event::Polled(_) => self.last matches Some((function, Ask::Poll(_))) && function
                == input.function,
        }
    }

    /// The step of the writer that `input` belongs to, without its result.
    pub open spec fn outcome(self, input: WriteInput) -> (WriterState, Ask) {
        match input.function {
            Function::Write => {
                let outcome = self.state.write_step(input.live, input.event, input.len);
                (outcome.state, asks(outcome.step))
            },
            Function::Flush => {
                let outcome = self.state.flush_step(input.live, input.event);
                (outcome.state, asks(outcome.step))
            },
            Function::Close => {
                let outcome = self.state.close_step(input.event);
                (outcome.state, asks(outcome.step))
            },
        }
    }

    pub open spec fn step(self, input: WriteInput) -> WriteSession {
        let (state, ask) = self.outcome(input);
        let (sends, flushes) = match (input.event, self.last) {
            (Event::Submitted(Operation::InFlight(token)), _) => match input.function {
                Function::Write => (self.sends.insert(token), self.flushes),
                Function::Flush => (self.sends, self.flushes.insert(token)),
                Function::Close => (self.sends, self.flushes),
            },
            (Event::Polled(Poll::Ready(_)), Some((_, Ask::Poll(token)))) => (
                self.sends.remove(token),
                self.flushes.remove(token),
            ),
            _ => (self.sends, self.flushes),
        };
        WriteSession { state, last: Some((input.function, ask)), sends, flushes }
    }

    /// The session after all of `inputs`.
    pub open spec fn run(self, inputs: Seq<WriteInput>) -> WriteSession
        decreases inputs.len(),
    {
        if inputs.len() == 0 {
            self
        } else {
            self.run(inputs.drop_last()).step(inputs.last())
        }
    }

    /// Whether every one of `inputs` comes in turn.
    pub open spec fn orderly(self, inputs: Seq<WriteInput>) -> bool
        decreases inputs.len(),
    {
        inputs.len() > 0 ==> self.orderly(inputs.drop_last()) && self.run(
            inputs.drop_last(),
        ).in_turn(inputs.last())
    }

    /// The tokens in a slot, as a set.
    spec fn held(slot: Option<Token>) -> Set<Token> {
        match slot {
            Some(token) => set![token],
            None => Set::empty(),
        }
    }

    /// The token of the send in the slot.
    spec fn send_token(self) -> Option<Token> {
        match self.state.send {
            Some((token, _)) => Some(token),
            None => None,
        }
    }

    /// The books agree with the writer: what is in flight of each kind is
    /// what the slot of that kind holds, and what was asked for fits the
    /// state.
    spec fn consistent(self) -> bool {
        &&& self.state.wf()
        &&& self.sends == Self::held(self.send_token())
        &&& self.flushes == Self::held(self.state.flush)
        &&& self.send_token() is Some ==> self.send_token() != self.state.flush
        &&& self.last == Some((Function::Write, Ask::Submit)) ==> self.state.send is None
            && !self.state.closed
        &&& self.last == Some((Function::Flush, Ask::Submit)) ==> self.state.flush is None
            && !self.state.closed
        &&& self.last != Some((Function::Close, Ask::Submit))
        &&& forall|token: Token| #[trigger]
            self.polls(Function::Write, token) ==> self.send_token() == Some(token)
        &&& forall|token: Token| #[trigger]
            self.polls(Function::Flush, token) ==> self.state.flush == Some(token)
        &&& forall|token: Token| #[trigger]
            self.polls(Function::Close, token) ==> if self.state.send is Some {
                self.send_token() == Some(token)
            } else {
                self.state.flush == Some(token)
            }
    }

    /// Whether the last step was one of `function` that asked for a poll of
    /// `token`.
    spec fn polls(self, function: Function, token: Token) -> bool {
        self.last == Some((function, Ask::Poll(token)))
    }

    proof fn lemma_step_consistent(self, input: WriteInput)
        requires
            self.consistent(),
            self.in_turn(input),
        ensures
            self.step(input).consistent(),
    {
        let next = self.step(input);
        match self.last {
            Some((function, Ask::Poll(token))) => {
                assert(self.polls(function, token));
            },
            _ => {},
        }
        assert(next.sends =~= Self::held(next.send_token()));
        assert(next.flushes =~= Self::held(next.state.flush));
    }

    proof fn lemma_run_consistent(self, inputs: Seq<WriteInput>)
        requires
            self.consistent(),
            self.orderly(inputs),
        ensures
            self.run(inputs).consistent(),
        decreases inputs.len(),
    {
        if inputs.len() > 0 {
            self.lemma_run_consistent(inputs.drop_last());
            self.run(inputs.drop_last()).lemma_step_consistent(inputs.last());
        }
    }

    proof fn lemma_orderly_prefix(self, inputs: Seq<WriteInput>, k: int)
        requires
            self.orderly(inputs),
            0 <= k <= inputs.len(),
        ensures
            self.orderly(inputs.take(k)),
        decreases inputs.len(),
    {
        if k == inputs.len() {
            assert(inputs.take(k) =~= inputs);
        } else {
            assert(inputs.take(k) =~= inputs.drop_last().take(k));
            self.lemma_orderly_prefix(inputs.drop_last(), k);
        }
    }
}

/// At no point of a session is more than one send in flight, nor more than
/// one flush.
///
/// The driver may call the three functions of the writer in any order and
/// bring any answers of the transport, as long as each event comes in turn.
/// After every step the transport has accepted at most one send and at most
/// one flush that it has not resolved, and they are the ones in the writer's
/// slots.
pub proof fn lemma_one_send_in_flight(inputs: Seq<WriteInput>, k: int)
    requires
        WriteSession::start().orderly(inputs),
        0 <= k <= inputs.len(),
    ensures
        ({
            let session = WriteSession::start().run(inputs.take(k));
            &&& session.sends.finite() && session.sends.len() <= 1
            &&& session.flushes.finite() && session.flushes.len() <= 1
            &&& session.sends.len() == 1 <==> session.state.send is Some
            &&& session.flushes.len() == 1 <==> session.state.flush is Some
        }),
{
    WriteSession::start().lemma_orderly_prefix(inputs, k);
    WriteSession::start().lemma_run_consistent(inputs.take(k));
}

} // verus!
