//! The `InitChain` call.
use crate::types::{ConsensusParams, ValidatorUpdate};
use std::time::Duration;
use vstd::prelude::*;

verus! {

/// Called once upon genesis.
#[derive(Debug, Clone, Default, PartialEq, Eq)]
pub struct InitChainRequest {
    /// Genesis time (duration since the epoch)
    pub time: Option<Duration>,
    /// ID of the blockchain
    pub chain_id: String,
    /// Initial consensus-critical parameters
    pub consensus_params: Option<ConsensusParams>,
    /// Initial genesis validators
    pub validators: Vec<ValidatorUpdate>,
    /// Serialized initial application state
    pub app_state_bytes: Vec<u8>,
    /// Height of the first block
    pub initial_height: i64,
}

/// Response to `InitChain`.
#[derive(Debug, Clone, Default, PartialEq, Eq)]
pub struct InitChainResponse {
    /// Initial consensus-critical parameters
    pub consensus_params: Option<ConsensusParams>,
    /// Initial validator set (if non empty)
    pub validators: Vec<ValidatorUpdate>,
    /// Initial application hash
    pub app_hash: Vec<u8>,
}

} // verus!
