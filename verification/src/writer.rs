//! The push side: a byte-stream writer over sends, with its flush barrier.
use vstd::prelude::*;
use crate::endpoint::{Endpoint, Handle};
use crate::error::Error;
use crate::operation::{Event, Operation, Poll, Step, Token};

verus! {

/// What a writer holds between two steps.
pub struct WriterState {
    /// The send in flight, with the length of the buffer it was submitted
    /// with.
    pub send: Option<(Token, usize)>,
    /// The flush in flight.
    pub flush: Option<Token>,
    /// Whether the writer has been closed.
    pub closed: bool,
}

/// What one step of a write, a flush or a close does.
pub struct WriteOutcome<T> {
    pub state: WriterState,
    pub step: Step<T>,
}

impl WriterState {
    pub open spec fn fresh() -> WriterState {
        WriterState { send: None, flush: None, closed: false }
    }

    /// A closed writer has nothing in flight.
    pub open spec fn wf(self) -> bool {
        self.closed ==> self.send is None && self.flush is None
    }

    /// Leaves the state as it is.
    pub open spec fn answer<T>(self, step: Step<T>) -> WriteOutcome<T> {
        WriteOutcome { state: self, step }
    }

    /// One step of a write of `len` bytes.
    ///
    /// A closed writer refuses. While a send is in flight no other is
    /// submitted: the write polls the one in flight, and once that has
    /// resolved reports the length it was submitted with. With none in
    /// flight the write submits the whole buffer; the transport takes all of
    /// it or refuses it.
    pub open spec fn write_step(self, live: Option<Handle>, event: Event<()>, len: usize)
        -> WriteOutcome<usize> {
        if self.closed {
            self.answer(Step::Ready(Err(Error::Closed)))
        } else {
            match (event, self.send) {
                (Event::Call, Some((token, _))) => self.answer(Step::Poll(token)),
                (Event::Call, None) => match live {
                    Some(handle) => self.answer(Step::Submit(handle)),
                    None => self.answer(Step::Ready(Err(Error::ConnectionInvalid))),
                },
                (Event::Submitted(_), Some(_)) => self.answer(Step::Ready(Err(Error::OutOfTurn))),
                (Event::Submitted(Operation::ImmediateSuccess(_)), None) => self.answer(
                    Step::Ready(Ok(len)),
                ),
                (Event::Submitted(Operation::ImmediateError(cause)), None) => self.answer(
                    Step::Ready(Err(Error::Transport(cause))),
                ),
                (Event::Submitted(Operation::InFlight(token)), None) => WriteOutcome {
                    state: WriterState { send: Some((token, len)), ..self },
                    step: Step::Poll(token),
                },
                (Event::Polled(_), None) => self.answer(Step::Ready(Err(Error::OutOfTurn))),
                (Event::Polled(Poll::Pending), Some(_)) => self.answer(Step::Pending),
                (Event::Polled(Poll::Ready(Ok(_))), Some((_, submitted))) => WriteOutcome {
                    state: WriterState { send: None, ..self },
                    step: Step::Ready(Ok(submitted)),
                },
                (Event::Polled(Poll::Ready(Err(e))), Some(_)) => WriteOutcome {
                    state: WriterState { send: None, ..self },
                    step: Step::Ready(Err(e)),
                },
            }
        }
    }

    /// One step of a flush.
    ///
    /// The flush has a slot of its own and never looks at the send slot. It
    /// is `Ready` with success only when the transport has said that the
    /// flush operation itself has resolved.
    pub open spec fn flush_step(self, live: Option<Handle>, event: Event<()>) -> WriteOutcome<()> {
        if self.closed {
            self.answer(Step::Ready(Err(Error::Closed)))
        } else {
            match (event, self.flush) {
                (Event::Call, Some(token)) => self.answer(Step::Poll(token)),
                (Event::Call, None) => match live {
                    Some(handle) => self.answer(Step::Submit(handle)),
                    None => self.answer(Step::Ready(Err(Error::ConnectionInvalid))),
                },
                (Event::Submitted(_), Some(_)) => self.answer(Step::Ready(Err(Error::OutOfTurn))),
                (Event::Submitted(Operation::ImmediateSuccess(_)), None) => self.answer(
                    Step::Ready(Ok(())),
                ),
                (Event::Submitted(Operation::ImmediateError(cause)), None) => self.answer(
                    Step::Ready(Err(Error::Transport(cause))),
                ),
                (Event::Submitted(Operation::InFlight(token)), None) => WriteOutcome {
                    state: WriterState { flush: Some(token), ..self },
                    step: Step::Poll(token),
                },
                (Event::Polled(_), None) => self.answer(Step::Ready(Err(Error::OutOfTurn))),
                (Event::Polled(Poll::Pending), Some(_)) => self.answer(Step::Pending),
                (Event::Polled(Poll::Ready(Ok(_))), Some(_)) => WriteOutcome {
                    state: WriterState { flush: None, ..self },
                    step: Step::Ready(Ok(())),
                },
                (Event::Polled(Poll::Ready(Err(e))), Some(_)) => WriteOutcome {
                    state: WriterState { flush: None, ..self },
                    step: Step::Ready(Err(e)),
                },
            }
        }
    }

    /// The writer once nothing more is in flight in the slot that was just
    /// polled: it goes on to the flush in flight, or is closed.
    pub open spec fn drained(self) -> WriteOutcome<()> {
        match (self.send, self.flush) {
            (Some((token, _)), _) => self.answer(Step::Poll(token)),
            (None, Some(token)) => self.answer(Step::Poll(token)),
            (None, None) => WriteOutcome {
                state: WriterState { closed: true, ..self },
                step: Step::Ready(Ok(())),
            },
        }
    }

    /// One step of a close.
    ///
    /// A close submits nothing. It waits for what is in flight, the send
    /// first and then the flush, and closes the writer once both slots are
    /// empty. An operation that resolves with a failure leaves its slot, and
    /// the close reports the failure without closing. Closing a closed writer
    /// succeeds at once.
    pub open spec fn close_step(self, event: Event<()>) -> WriteOutcome<()> {
        match event {
            Event::Call => if self.closed {
                self.answer(Step::Ready(Ok(())))
            } else {
                self.drained()
            },
            Event::Submitted(_) => self.answer(Step::Ready(Err(Error::OutOfTurn))),
            Event::Polled(polled) => match (self.send, self.flush) {
                (None, None) => self.answer(Step::Ready(Err(Error::OutOfTurn))),
                (Some(_), _) => match polled {
                    Poll::Pending => self.answer(Step::Pending),
                    Poll::Ready(Ok(_)) => WriterState { send: None, ..self }.drained(),
                    Poll::Ready(Err(e)) => WriteOutcome {
                        state: WriterState { send: None, ..self },
                        step: Step::Ready(Err(e)),
                    },
                },
                (None, Some(_)) => match polled {
                    Poll::Pending => self.answer(Step::Pending),
                    Poll::Ready(Ok(_)) => WriterState { flush: None, ..self }.drained(),
                    Poll::Ready(Err(e)) => WriteOutcome {
                        state: WriterState { flush: None, ..self },
                        step: Step::Ready(Err(e)),
                    },
                },
            },
        }
    }
}

/// Whether the event says that the transport has resolved the operation with
/// success, at submission or at a poll.
pub open spec fn reports_success(event: Event<()>) -> bool {
    event matches Event::Submitted(Operation::ImmediateSuccess(_)) || event matches Event::Polled(
        Poll::Ready(Ok(_)),
    )
}

/// A flush is not reported done before the send ahead of it has resolved.
///
/// `send_resolved` says whether the transport has resolved the send that was
/// submitted before the flush. The flush is a barrier: the transport resolves
/// it with success only once that send has resolved, which is what `requires`
/// says of the event. The writer adds no haste of its own: whatever state it
/// is in, its flush is `Ready` with success only if the send has resolved.
pub proof fn lemma_flush_after_send(
    state: WriterState,
    live: Option<Handle>,
    event: Event<()>,
    send_resolved: bool,
)
    requires
        reports_success(event) ==> send_resolved,
    ensures
        state.flush_step(live, event).step == Step::Ready(Ok::<(), Error>(())) ==> send_resolved,
{
}

/// A byte-stream writer over a connection. It keeps the one send and the one
/// flush that are in flight.
#[derive(Debug)]
pub struct AsyncStreamWriterEndpoint {
    handle: Option<(Token, usize)>,
    flush_handle: Option<Token>,
    closed: bool,
}

impl View for AsyncStreamWriterEndpoint {
    type V = WriterState;

    closed spec fn view(&self) -> WriterState {
        WriterState { send: self.handle, flush: self.flush_handle, closed: self.closed }
    }
}

impl AsyncStreamWriterEndpoint {
    #[verifier::type_invariant]
    spec fn inv(&self) -> bool {
        self@.wf()
    }

    /// An open writer with nothing in flight.
    pub fn new() -> (writer: AsyncStreamWriterEndpoint)
        ensures
            writer@ == WriterState::fresh(),
    {
        AsyncStreamWriterEndpoint { handle: None, flush_handle: None, closed: false }
    }

    /// One step of writing `buf`.
    ///
    /// A write begins with [`Event::Call`]. Where the step asks for a
    /// submission or a poll, the driver performs it on the transport and
    /// calls again with the answer, until the step is `Ready` or `Pending`.
    pub fn poll_write(&mut self, endpoint: &Endpoint, event: Event<()>, buf: &[u8]) -> (step: Step<
        usize,
    >)
        ensures
            final(self)@ == old(self)@.write_step(endpoint@, event, buf@.len() as usize).state,
            step == old(self)@.write_step(endpoint@, event, buf@.len() as usize).step,
            final(self)@.wf(),
            // A send is asked for only where none is in flight, and on the
            // live handle.
            step matches Step::Submit(handle) ==> event is Call && old(self)@.send is None && !old(
                self,
            )@.closed && endpoint@ == Some(handle),
            // A write is over after three steps at most: an answer to a
            // submission is followed by one poll, and a poll by none.
            event is Submitted ==> step is Ready || step is Poll,
            event is Polled ==> step is Ready || step is Pending,
            // A closed writer refuses, and stays as it is.
            old(self)@.closed ==> step == Step::<usize>::Ready(Err(Error::Closed)) && final(self)@
                == old(self)@,
            // A failure leaves no send in the slot.
            step matches Step::Ready(Err(e)) && e != Error::OutOfTurn ==> final(self)@.send is None,
            // A send that has resolved leaves the slot and ends the write.
            event matches Event::Polled(Poll::Ready(_)) ==> step is Ready && (old(self)@.send is Some
                ==> final(self)@.send is None),
            // The flush is not touched.
            final(self)@.flush == old(self)@.flush,
    {
        proof {
            use_type_invariant(&*self);
        }
        if self.closed {
            return Step::Ready(Err(Error::Closed));
        }
        match event {
            Event::Call => match self.handle {
                Some((token, _)) => Step::Poll(token),
                None => match endpoint.get_handle() {
                    Ok(handle) => Step::Submit(handle),
                    Err(e) => Step::Ready(Err(e)),
                },
            },
            Event::Submitted(operation) => {
                if self.handle.is_some() {
                    Step::Ready(Err(Error::OutOfTurn))
                } else {
                    match operation {
                        Operation::ImmediateSuccess(_) => Step::Ready(Ok(buf.len())),
                        Operation::ImmediateError(cause) => Step::Ready(
                            Err(Error::Transport(cause)),
                        ),
                        Operation::InFlight(token) => {
                            self.handle = Some((token, buf.len()));
                            Step::Poll(token)
                        },
                    }
                }
            },
            Event::Polled(polled) => match self.handle {
                None => Step::Ready(Err(Error::OutOfTurn)),
                Some((_, submitted)) => match polled {
                    Poll::Pending => Step::Pending,
                    Poll::Ready(Ok(_)) => {
                        self.handle = None;
                        Step::Ready(Ok(submitted))
                    },
                    Poll::Ready(Err(e)) => {
                        self.handle = None;
                        Step::Ready(Err(e))
                    },
                },
            },
        }
    }

    /// One step of a flush: a barrier that resolves once the transport has
    /// delivered every send submitted on the connection before it.
    ///
    /// The steps follow each other as those of
    /// [`AsyncStreamWriterEndpoint::poll_write`] do.
    pub fn poll_flush(&mut self, endpoint: &Endpoint, event: Event<()>) -> (step: Step<()>)
        ensures
            final(self)@ == old(self)@.flush_step(endpoint@, event).state,
            step == old(self)@.flush_step(endpoint@, event).step,
            final(self)@.wf(),
            // A flush is asked for only where none is in flight, and on the
            // live handle.
            step matches Step::Submit(handle) ==> event is Call && old(self)@.flush is None && !old(
                self,
            )@.closed && endpoint@ == Some(handle),
            // A flush is over after three steps at most.
            event is Submitted ==> step is Ready || step is Poll,
            event is Polled ==> step is Ready || step is Pending,
            // The flush is done only when the transport has said so.
            step == Step::Ready(Ok::<(), Error>(())) ==> reports_success(event),
            // A failure leaves no flush in the slot.
            step matches Step::Ready(Err(e)) && e != Error::OutOfTurn ==> final(self)@.flush is None,
            // A flush that has resolved leaves the slot and ends the call.
            event matches Event::Polled(Poll::Ready(_)) ==> step is Ready && (old(self)@.flush is Some
                ==> final(self)@.flush is None),
            // The sends are not touched.
            final(self)@.send == old(self)@.send,
            // A closed writer refuses, and stays as it is.
            old(self)@.closed ==> step == Step::<()>::Ready(Err(Error::Closed)) && final(self)@
                == old(self)@,
    {
        proof {
            use_type_invariant(&*self);
        }
        if self.closed {
            return Step::Ready(Err(Error::Closed));
        }
        match event {
            Event::Call => match self.flush_handle {
                Some(token) => Step::Poll(token),
                None => match endpoint.get_handle() {
                    Ok(handle) => Step::Submit(handle),
                    Err(e) => Step::Ready(Err(e)),
                },
            },
            Event::Submitted(operation) => {
                if self.flush_handle.is_some() {
                    Step::Ready(Err(Error::OutOfTurn))
                } else {
                    match operation {
                        Operation::ImmediateSuccess(_) => Step::Ready(Ok(())),
                        Operation::ImmediateError(cause) => Step::Ready(
                            Err(Error::Transport(cause)),
                        ),
                        Operation::InFlight(token) => {
                            self.flush_handle = Some(token);
                            Step::Poll(token)
                        },
                    }
                }
            },
            Event::Polled(polled) => {
                if self.flush_handle.is_none() {
                    Step::Ready(Err(Error::OutOfTurn))
                } else {
                    match polled {
                        Poll::Pending => Step::Pending,
                        Poll::Ready(Ok(_)) => {
                            self.flush_handle = None;
                            Step::Ready(Ok(()))
                        },
                        Poll::Ready(Err(e)) => {
                            self.flush_handle = None;
                            Step::Ready(Err(e))
                        },
                    }
                }
            },
        }
    }

    /// The token of the send in flight.
    pub fn pending_send(&self) -> (token: Option<Token>)
        ensures
            token == match self@.send {
                Some((token, _)) => Some(token),
                None => None,
            },
    {
        match self.handle {
            Some((token, _)) => Some(token),
            None => None,
        }
    }

    /// The token of the flush in flight.
    pub fn pending_flush(&self) -> (token: Option<Token>)
        ensures
            token == self@.flush,
    {
        self.flush_handle
    }

    pub fn is_closed(&self) -> (closed: bool)
        ensures
            closed == self@.closed,
    {
        self.closed
    }

    /// Gives up what is in flight. The writer empties both slots and returns
    /// the tokens of the send and of the flush that were in them: the driver
    /// cancels those operations on the transport, or detaches them so that
    /// their completion finds nobody to wake. Open stays open and closed
    /// stays closed.
    pub fn abandon(&mut self) -> (tokens: (Option<Token>, Option<Token>))
        ensures
            tokens.0 == match old(self)@.send {
                Some((token, _)) => Some(token),
                None => None,
            },
            tokens.1 == old(self)@.flush,
            final(self)@ == (WriterState { send: None, flush: None, closed: old(self)@.closed }),
    {
        proof {
            use_type_invariant(&*self);
        }
        let send = self.pending_send();
        let flush = self.flush_handle;
        self.handle = None;
        self.flush_handle = None;
        (send, flush)
    }

    /// Goes on with a close after a slot has been emptied.
    fn drain(&mut self) -> (step: Step<()>)
        requires
            !old(self)@.closed,
        ensures
            final(self)@ == old(self)@.drained().state,
            step == old(self)@.drained().step,
    {
        match (self.handle, self.flush_handle) {
            (Some((token, _)), _) => Step::Poll(token),
            (None, Some(token)) => Step::Poll(token),
            (None, None) => {
                self.closed = true;
                Step::Ready(Ok(()))
            },
        }
    }

    /// One step of closing the writer.
    ///
    /// A close begins with [`Event::Call`], asks only for polls, and is over
    /// when the step is `Ready`. After `Ready(Ok(()))` the writer is closed
    /// for good: it refuses every write and every flush.
    pub fn poll_close(&mut self, event: Event<()>) -> (step: Step<()>)
        ensures
            final(self)@ == old(self)@.close_step(event).state,
            step == old(self)@.close_step(event).step,
            final(self)@.wf(),
            // A close submits nothing, and polls again only after a slot has
            // been emptied.
            !(step is Submit),
            event is Polled && step is Poll ==> old(self)@.send is Some && final(self)@.send is None,
            // The close succeeds only with the writer closed and nothing in
            // flight, and the step that closes the writer says so.
            step == Step::Ready(Ok::<(), Error>(())) ==> final(self)@.closed && final(self)@.send is None
                && final(self)@.flush is None,
            final(self)@.closed && !old(self)@.closed ==> step == Step::Ready(Ok::<(), Error>(())),
            // A closed writer is never opened again.
            old(self)@.closed ==> final(self)@ == old(self)@,
            // A close that fails has emptied the slot it polled, and has not
            // closed the writer.
            step matches Step::Ready(Err(e)) ==> final(self)@.closed == old(self)@.closed,
    {
        proof {
            use_type_invariant(&*self);
        }
        match event {
            Event::Call => {
                if self.closed {
                    Step::Ready(Ok(()))
                } else {
                    self.drain()
                }
            },
            Event::Submitted(_) => Step::Ready(Err(Error::OutOfTurn)),
            Event::Polled(polled) => match (self.handle, self.flush_handle) {
                (None, None) => Step::Ready(Err(Error::OutOfTurn)),
                (Some(_), _) => match polled {
                    Poll::Pending => Step::Pending,
                    Poll::Ready(Ok(_)) => {
                        self.handle = None;
                        self.drain()
                    },
                    Poll::Ready(Err(e)) => {
                        self.handle = None;
                        Step::Ready(Err(e))
                    },
                },
                (None, Some(_)) => match polled {
                    Poll::Pending => Step::Pending,
                    Poll::Ready(Ok(_)) => {
                        self.flush_handle = None;
                        self.drain()
                    },
                    Poll::Ready(Err(e)) => {
                        self.flush_handle = None;
                        Step::Ready(Err(e))
                    },
                },
            },
        }
    }
}

} // verus!
