//! The failures that an adapter reports.
use vstd::prelude::*;

verus! {

/// The status code with which the transport refused or failed an operation.
/// The adapters carry it through and never look into it.
#[derive(Clone, Copy, Debug, PartialEq, Eq, Structural)]
pub struct Cause {
    pub code: i32,
}

/// Why a step of an adapter failed. A failure is handed to the caller of the
/// step that met it; nothing is retried.
#[derive(Clone, Copy, Debug, PartialEq, Eq, Structural)]
pub enum Error {
    /// The transport answered a submission, or resolved an operation, with a
    /// failure status.
    Transport(Cause),
    /// The connection has no live handle any more.
    ConnectionInvalid,
    /// The operation was abandoned before it resolved.
    Cancelled,
    /// The writer has been closed.
    Closed,
    /// The driver brought an event that answers no request of the adapter.
    OutOfTurn,
}

} // verus!
