//! One non-blocking call on the transport, from submission to resolution.
use vstd::prelude::*;
use crate::endpoint::Handle;
use crate::error::{Cause, Error};

verus! {

/// The correlation token of an operation in flight. The transport hands it out
/// at submission; the adapters keep it and give it back to name the operation,
/// and never interpret it.
#[derive(Clone, Copy, Debug, PartialEq, Eq, Structural)]
pub struct Token {
    pub raw: usize,
}

/// What the transport answered to a submission.
#[derive(Debug, PartialEq, Eq)]
pub enum Operation<T> {
    /// Resolved at submission, with its result.
    ImmediateSuccess(T),
    /// Refused at submission.
    ImmediateError(Cause),
    /// Accepted; the completion callback will fire later.
    InFlight(Token),
}

/// What the status query of an operation in flight said.
#[derive(Clone, Copy, Debug, PartialEq, Eq, Structural)]
pub enum Status {
    /// The operation has resolved with success.
    Done,
    /// The operation has not resolved yet.
    InProgress,
    /// The operation was cancelled before it resolved.
    Cancelled,
    /// The operation has resolved with a failure.
    Failed(Cause),
}

/// Whether an operation in flight has resolved, and to what.
#[derive(Debug, PartialEq, Eq)]
pub enum Poll<T> {
    Ready(T),
    Pending,
}

/// What the driver brings to one step of an operation.
#[derive(Debug, PartialEq, Eq)]
pub enum Event<T> {
    /// The caller enters the operation, for the first time or after a wake-up.
    Call,
    /// The transport's answer to the submission that the last step asked for.
    Submitted(Operation<T>),
    /// The outcome of the poll that the last step asked for.
    Polled(Poll<Result<T, Error>>),
}

/// The outcome of one step of an operation.
#[derive(Debug, PartialEq, Eq)]
pub enum Step<T> {
    /// The operation is over; this is what the caller gets.
    Ready(Result<T, Error>),
    /// The operation is in flight. The caller suspends until the completion
    /// callback wakes it.
    Pending,
    /// Submit the operation on this handle, and come back with
    /// [`Event::Submitted`].
    Submit(Handle),
    /// Query the operation with this token and register for its completion,
    /// and come back with [`Event::Polled`].
    Poll(Token),
}

/// What a plain completion (a send, a flush) has come to.
pub open spec fn spec_poll_normal(status: Status) -> Poll<Result<(), Error>> {
    match status {
        Status::InProgress => Poll::Pending,
        Status::Done => Poll::Ready(Ok(())),
        Status::Cancelled => Poll::Ready(Err(Error::Cancelled)),
        Status::Failed(cause) => Poll::Ready(Err(Error::Transport(cause))),
    }
}

/// What a data-bearing completion (a receive) has come to; `length` is the
/// byte count that the status query reported with `status`.
pub open spec fn spec_poll_stream(status: Status, length: usize) -> Poll<Result<usize, Error>> {
    match status {
        Status::InProgress => Poll::Pending,
        Status::Done => Poll::Ready(Ok(length)),
        Status::Cancelled => Poll::Ready(Err(Error::Cancelled)),
        Status::Failed(cause) => Poll::Ready(Err(Error::Transport(cause))),
    }
}

/// Classifies the status of a send or a flush in flight.
pub fn poll_normal(status: Status) -> (polled: Poll<Result<(), Error>>)
    ensures
        polled == spec_poll_normal(status),
{
    match status {
        Status::InProgress => Poll::Pending,
        Status::Done => Poll::Ready(Ok(())),
        Status::Cancelled => Poll::Ready(Err(Error::Cancelled)),
        Status::Failed(cause) => Poll::Ready(Err(Error::Transport(cause))),
    }
}

/// Classifies the status of a receive in flight. The byte count of a resolved
/// receive is the one that its own status query reported, whatever length was
/// asked for at submission.
pub fn poll_stream(status: Status, length: usize) -> (polled: Poll<Result<usize, Error>>)
    ensures
        polled == spec_poll_stream(status, length),
{
    match status {
        Status::InProgress => Poll::Pending,
        Status::Done => Poll::Ready(Ok(length)),
        Status::Cancelled => Poll::Ready(Err(Error::Cancelled)),
        Status::Failed(cause) => Poll::Ready(Err(Error::Transport(cause))),
    }
}

} // verus!
