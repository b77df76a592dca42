//! The state-sync snapshot calls.
use vstd::prelude::*;

verus! {

/// A snapshot of the application state.
#[derive(Debug, Clone, Default, PartialEq, Eq)]
pub struct Snapshot {
    /// Height at which the snapshot was taken
    pub height: u64,
    /// Application-specific format of the snapshot
    pub format: u32,
    /// Number of chunks in the snapshot
    pub chunks: u32,
    /// Arbitrary snapshot hash, equal only if the snapshots are identical
    pub hash: Vec<u8>,
    /// Arbitrary application metadata
    pub metadata: Vec<u8>,
}

/// Asks for the snapshots that the application holds.
#[derive(Debug, Clone, Default, PartialEq, Eq)]
pub struct ListSnapshotsRequest {}

/// Response to `ListSnapshots`.
#[derive(Debug, Clone, Default, PartialEq, Eq)]
pub struct ListSnapshotsResponse {
    /// The snapshots held
    pub snapshots: Vec<Snapshot>,
}

/// Offers a snapshot to the application when a node bootstraps by state sync.
#[derive(Debug, Clone, Default, PartialEq, Eq)]
pub struct OfferSnapshotRequest {
    /// The snapshot offered
    pub snapshot: Option<Snapshot>,
    /// Light-client-verified app hash of the snapshot's height
    pub app_hash: Vec<u8>,
}

/// Response to `OfferSnapshot`.
#[derive(Debug, Clone, Default, PartialEq, Eq)]
pub struct OfferSnapshotResponse {
    /// Whether the snapshot is accepted, as the protocol's number of the outcome
    pub result: i32,
}

/// Asks for a chunk of a snapshot.
#[derive(Debug, Clone, Default, PartialEq, Eq)]
pub struct LoadSnapshotChunkRequest {
    /// Height of the snapshot
    pub height: u64,
    /// Format of the snapshot
    pub format: u32,
    /// Index of the chunk
    pub chunk: u32,
}

/// Response to `LoadSnapshotChunk`.
#[derive(Debug, Clone, Default, PartialEq, Eq)]
pub struct LoadSnapshotChunkResponse {
    /// The chunk bytes
    pub chunk: Vec<u8>,
}

/// Applies a chunk of a snapshot.
#[derive(Debug, Clone, Default, PartialEq, Eq)]
pub struct ApplySnapshotChunkRequest {
    /// Index of the chunk
    pub index: u32,
    /// The chunk bytes
    pub chunk: Vec<u8>,
    /// Peer that sent the chunk
    pub sender: String,
}

/// Response to `ApplySnapshotChunk`.
#[derive(Debug, Clone, Default, PartialEq, Eq)]
pub struct ApplySnapshotChunkResponse {
    /// Outcome of applying the chunk, as the protocol's number of the outcome
    pub result: i32,
    /// Chunks to fetch and apply again
    pub refetch_chunks: Vec<u32>,
    /// Peers whose chunks should be refused
    pub reject_senders: Vec<String>,
}

} // verus!
