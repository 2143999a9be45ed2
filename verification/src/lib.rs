//! Completion bridging for a callback-driven stream transport.
//!
//! The transport accepts non-blocking sends, receives and flushes. Each one
//! finishes at once, fails at once, or stays in flight until a completion
//! callback fires. The types of this crate decide what a byte-stream reader
//! and writer on top of such a transport do with every answer of it, without
//! touching the transport themselves: a step takes the adapter's state and an
//! [`operation::Event`], and gives back the next state with either a result
//! for the caller or a request that the driver has to carry to the transport.
pub mod endpoint;
pub mod error;
pub mod operation;
pub mod reader;
pub mod session;
pub mod writer;
