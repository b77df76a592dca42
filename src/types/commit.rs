//! The `Commit` call.
use vstd::prelude::*;

verus! {

/// Asks the application to persist its state.
#[derive(Debug, Clone, Default, PartialEq, Eq)]
pub struct CommitRequest {}

/// Response to `Commit`.
#[derive(Debug, Clone, Default, PartialEq, Eq)]
pub struct CommitResponse {
    /// The Merkle root hash of the application state
    pub data: Vec<u8>,
    /// Blocks below this height may be removed
    pub retain_height: i64,
}

} // verus!
