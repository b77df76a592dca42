//! The role-neutral calls `Echo` and `Flush`, and the protocol exception.
use vstd::prelude::*;

verus! {

/// Asks for a message back, to test a connection.
#[derive(Debug, Clone, Default, PartialEq, Eq)]
pub struct EchoRequest {
    /// The message
    pub message: String,
}

/// Response to `Echo`.
#[derive(Debug, Clone, Default, PartialEq, Eq)]
pub struct EchoResponse {
    /// The message of the request
    pub message: String,
}

/// Signals that queued messages should be flushed.
#[derive(Debug, Clone, Default, PartialEq, Eq)]
pub struct FlushRequest {}

/// Response to `Flush`.
#[derive(Debug, Clone, Default, PartialEq, Eq)]
pub struct FlushResponse {}

/// A request refused by the protocol: a call out of order, or on the wrong connection.
#[derive(Debug, Clone, Default, PartialEq, Eq)]
pub struct ExceptionResponse {
    /// Why the request was refused
    pub error: String,
}

} // verus!
