//! The `Info` call.
use vstd::prelude::*;

verus! {

/// Asks for information about the application state.
#[derive(Debug, Clone, Default, PartialEq, Eq)]
pub struct InfoRequest {
    /// Tendermint software semantic version
    pub version: String,
    /// Tendermint block protocol version
    pub block_version: u64,
    /// Tendermint P2P protocol version
    pub p2p_version: u64,
}

/// Response to `Info`.
#[derive(Debug, Clone, Default, PartialEq, Eq)]
pub struct InfoResponse {
    /// Some arbitrary information
    pub data: String,
    /// Application software semantic version
    pub version: String,
    /// Application protocol version
    pub app_version: u64,
    /// Latest block for which the application has called `Commit`
    pub last_block_height: i64,
    /// Latest result of `Commit`
    pub last_block_app_hash: Vec<u8>,
}

} // verus!
