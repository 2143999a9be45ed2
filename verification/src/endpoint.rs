//! The connection, and its one-shot operations.
use vstd::prelude::*;
use vstd::math::min;
use crate::error::Error;
use crate::operation::{Event, Operation, Poll, Step};

verus! {

/// The live handle of a connection, as the transport gave it.
#[derive(Clone, Copy, Debug, PartialEq, Eq, Structural)]
pub struct Handle {
    pub raw: usize,
}

/// A connection as the adapters see it: the handle to submit on, for as long
/// as the connection is valid. A connection can become invalid at any time, so
/// every submission fetches the handle anew.
#[derive(Debug)]
pub struct Endpoint {
    handle: Option<Handle>,
}

impl View for Endpoint {
    type V = Option<Handle>;

    /// The live handle, if the connection is still valid.
    closed spec fn view(&self) -> Option<Handle> {
        self.handle
    }
}

/// One step of a one-shot send of `len` bytes on a connection whose live
/// handle is `live`.
///
/// The send is submitted whole: the transport takes the entire buffer or
/// refuses it, so a send that succeeds, at once or later, has sent `len` bytes.
pub open spec fn send_step(live: Option<Handle>, event: Event<()>, len: usize) -> Step<usize> {
    match event {
        Event::Call => match live {
            Some(handle) => Step::Submit(handle),
            None => Step::Ready(Err(Error::ConnectionInvalid)),
        },
        Event::Submitted(Operation::ImmediateSuccess(_)) => Step::Ready(Ok(len)),
        Event::Submitted(Operation::ImmediateError(cause)) => Step::Ready(
            Err(Error::Transport(cause)),
        ),
        Event::Submitted(Operation::InFlight(token)) => Step::Poll(token),
        Event::Polled(Poll::Pending) => Step::Pending,
        Event::Polled(Poll::Ready(Ok(_))) => Step::Ready(Ok(len)),
        Event::Polled(Poll::Ready(Err(e))) => Step::Ready(Err(e)),
    }
}

/// The byte count of a receive into `len` bytes for which the transport
/// reported `reported` bytes: the transport's count, and never more than the
/// buffer holds.
pub open spec fn received_count(reported: usize, len: usize) -> usize {
    min(reported as int, len as int) as usize
}

/// One step of a one-shot receive into a buffer of `len` bytes on a connection
/// whose live handle is `live`.
///
/// A receive into an empty buffer is over at once, with zero bytes and without
/// the transport. The count of a receive that succeeds is the one that the
/// transport reported, which may be less than `len`.
pub open spec fn recv_step(live: Option<Handle>, event: Event<usize>, len: usize) -> Step<usize> {
    match event {
        Event::Call => if len == 0 {
            Step::Ready(Ok(0))
        } else {
            match live {
                Some(handle) => Step::Submit(handle),
                None => Step::Ready(Err(Error::ConnectionInvalid)),
            }
        },
        Event::Submitted(Operation::ImmediateSuccess(reported)) => Step::Ready(
            Ok(received_count(reported, len)),
        ),
        Event::Submitted(Operation::ImmediateError(cause)) => Step::Ready(
            Err(Error::Transport(cause)),
        ),
        Event::Submitted(Operation::InFlight(token)) => Step::Poll(token),
        Event::Polled(Poll::Pending) => Step::Pending,
        Event::Polled(Poll::Ready(Ok(reported))) => Step::Ready(Ok(received_count(reported, len))),
        Event::Polled(Poll::Ready(Err(e))) => Step::Ready(Err(e)),
    }
}

impl Endpoint {
    /// A valid connection with the given handle.
    pub fn new(handle: Handle) -> (endpoint: Endpoint)
        ensures
            endpoint@ == Some(handle),
    {
        Endpoint { handle: Some(handle) }
    }

    /// Records that the connection has become invalid: the peer closed it, or
    /// the transport reported an error on it.
    pub fn invalidate(&mut self)
        ensures
            final(self)@ is None,
    {
        self.handle = None;
    }

    /// The live handle, or `ConnectionInvalid` once the connection is gone.
    pub fn get_handle(&self) -> (handle: Result<Handle, Error>)
        ensures
            handle == match self@ {
                Some(live) => Ok::<Handle, Error>(live),
                None => Err(Error::ConnectionInvalid),
            },
    {
        match self.handle {
            Some(live) => Ok(live),
            None => Err(Error::ConnectionInvalid),
        }
    }

    /// One step of sending `buf` in one piece.
    ///
    /// A send begins with [`Event::Call`]. Where the step asks for a
    /// submission or a poll, the driver performs it on the transport and
    /// calls again with the answer. After `Pending` the driver waits for the
    /// completion callback, polls the operation again, and calls with what the
    /// poll said.
    pub fn stream_send(&self, event: Event<()>, buf: &[u8]) -> (step: Step<usize>)
        ensures
            step == send_step(self@, event, buf@.len() as usize),
            // A send that succeeds has sent the whole buffer.
            step matches Step::Ready(Ok(n)) ==> n == buf@.len(),
            // Only a call asks for a submission, and only on the live handle.
            step matches Step::Submit(handle) ==> event is Call && self@ == Some(handle),
    {
        match event {
            Event::Call => match self.get_handle() {
                Ok(handle) => Step::Submit(handle),
                Err(e) => Step::Ready(Err(e)),
            },
            Event::Submitted(Operation::ImmediateSuccess(_)) => Step::Ready(Ok(buf.len())),
            Event::Submitted(Operation::ImmediateError(cause)) => Step::Ready(
                Err(Error::Transport(cause)),
            ),
            Event::Submitted(Operation::InFlight(token)) => Step::Poll(token),
            Event::Polled(Poll::Pending) => Step::Pending,
            Event::Polled(Poll::Ready(Ok(_))) => Step::Ready(Ok(buf.len())),
            Event::Polled(Poll::Ready(Err(e))) => Step::Ready(Err(e)),
        }
    }

    /// One step of receiving once into a buffer of `len` bytes, which the
    /// driver holds and the transport fills.
    ///
    /// The steps follow each other as those of [`Endpoint::stream_send`] do.
    pub fn stream_recv(&self, event: Event<usize>, len: usize) -> (step: Step<usize>)
        ensures
            step == recv_step(self@, event, len),
            // A receive into an empty buffer is never submitted.
            event is Call && len == 0 ==> step == Step::Ready(Ok::<usize, Error>(0)),
            // The count never exceeds the buffer.
            step matches Step::Ready(Ok(n)) ==> n <= len,
            // Only a call asks for a submission, and only on the live handle.
            step matches Step::Submit(handle) ==> event is Call && self@ == Some(handle),
    {
        match event {
            Event::Call => {
                if len == 0 {
                    Step::Ready(Ok(0))
                } else {
                    match self.get_handle() {
                        Ok(handle) => Step::Submit(handle),
                        Err(e) => Step::Ready(Err(e)),
                    }
                }
            },
            Event::Submitted(Operation::ImmediateSuccess(reported)) => Step::Ready(
                Ok(if reported <= len { reported } else { len }),
            ),
            Event::Submitted(Operation::ImmediateError(cause)) => Step::Ready(
                Err(Error::Transport(cause)),
            ),
            Event::Submitted(Operation::InFlight(token)) => Step::Poll(token),
            Event::Polled(Poll::Pending) => Step::Pending,
            Event::Polled(Poll::Ready(Ok(reported))) => Step::Ready(
                Ok(if reported <= len { reported } else { len }),
            ),
            Event::Polled(Poll::Ready(Err(e))) => Step::Ready(Err(e)),
        }
    }
}

} // verus!
