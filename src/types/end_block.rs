//! The `EndBlock` call.
use crate::types::{ConsensusParams, Event, ValidatorUpdate};
use vstd::prelude::*;

verus! {

/// Signals the end of a block.
#[derive(Debug, Clone, Default, PartialEq, Eq)]
pub struct EndBlockRequest {
    /// Height of the block just executed
    pub height: i64,
}

/// Response to `EndBlock`.
#[derive(Debug, Clone, Default, PartialEq, Eq)]
pub struct EndBlockResponse {
    /// Changes to the validator set (a power of 0 removes a validator)
    pub validator_updates: Vec<ValidatorUpdate>,
    /// Changes to consensus-critical time, size, and other parameters
    pub consensus_param_updates: Option<ConsensusParams>,
    /// Events for filtering and indexing
    pub events: Vec<Event>,
}

} // verus!
