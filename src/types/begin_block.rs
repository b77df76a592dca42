//! The `BeginBlock` call.
use crate::types::{Event, Evidence, Header, LastCommitInfo};
use vstd::prelude::*;

verus! {

/// Signals the beginning of a new block.
#[derive(Debug, Clone, Default, PartialEq, Eq)]
pub struct BeginBlockRequest {
    /// Block's hash. This can be derived from the block header
    pub hash: Vec<u8>,
    /// Block header
    pub header: Option<Header>,
    /// Info about the last commit: the round, the validators and which ones signed the last block
    pub last_commit_info: Option<LastCommitInfo>,
    /// Evidence of validators that acted maliciously
    pub byzantine_validators: Vec<Evidence>,
}

/// Response to `BeginBlock`.
#[derive(Debug, Clone, Default, PartialEq, Eq)]
pub struct BeginBlockResponse {
    /// Events for filtering and indexing
    pub events: Vec<Event>,
}

} // verus!
