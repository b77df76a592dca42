//! The four capability interfaces that an application implements, one for each kind of
//! connection that Tendermint opens. The library holds one handle of each, shared by all
//! connections, so implementations must be safe to share between threads.
use crate::error::Result;
use crate::types::{
    ApplySnapshotChunkRequest, ApplySnapshotChunkResponse, BeginBlockRequest, BeginBlockResponse,
    CheckTxRequest, CheckTxResponse, CommitRequest, CommitResponse, DeliverTxRequest,
    DeliverTxResponse, EchoRequest, EchoResponse, EndBlockRequest, EndBlockResponse, FlushRequest,
    FlushResponse, InfoRequest, InfoResponse, InitChainRequest, InitChainResponse,
    ListSnapshotsRequest, ListSnapshotsResponse, LoadSnapshotChunkRequest,
    LoadSnapshotChunkResponse, OfferSnapshotRequest, OfferSnapshotResponse, QueryRequest,
    QueryResponse, SetOptionRequest, SetOptionResponse,
};
use vstd::prelude::*;

verus! {

/// Initialization and queries from the user.
pub trait Info {
    /// Echo a string to test the connection.
    fn echo(&self, echo_request: EchoRequest) -> EchoResponse {
        EchoResponse { message: echo_request.message }
    }

    /// Information about the application state.
    ///
    /// On startup Tendermint calls `info` to learn the latest committed state of the
    /// application, which must match the last block it completed `commit` for. If it
    /// committed block `H` but not `H + 1`, it reports `last_block_height = H` and the hash
    /// that `commit` returned for `H`. If it failed during the `commit` of `H`, it reports
    /// `H - 1` and the hash returned for `H - 1`.
    fn info(&self, info_request: InfoRequest) -> InfoResponse;

    /// Set a non-consensus-critical option of the application.
    fn set_option(&self, set_option_request: SetOptionRequest) -> Result<SetOptionResponse> {
        Ok(SetOptionResponse { code: 0, log: String::new(), info: String::new() })
    }

    /// Query data of the application at the current or a past height.
    fn query(&self, query_request: QueryRequest) -> Result<QueryResponse> {
        Ok(
            QueryResponse {
                code: 0,
                log: String::new(),
                info: String::new(),
                index: 0,
                key: Vec::new(),
                value: Vec::new(),
                proof: None,
                height: 0,
                codespace: String::new(),
            },
        )
    }

    /// Signals that queued messages should be flushed.
    fn flush(&self, flush_request: FlushRequest) -> FlushResponse {
        FlushResponse {  }
    }
}

/// The execution of blocks.
///
/// The application keeps a consensus state, updated by `begin_block`, `deliver_tx` and
/// `end_block` and persisted as the latest committed state by `commit`. The library calls
/// these methods in the order that the protocol prescribes, one at a time.
pub trait Consensus {
    /// Echo a string to test the connection.
    fn echo(&self, echo_request: EchoRequest) -> EchoResponse {
        EchoResponse { message: echo_request.message }
    }

    /// Called once upon genesis, usually to establish the initial state.
    fn init_chain(&self, init_chain_request: InitChainRequest) -> InitChainResponse;

    /// Signals the beginning of a new block, before any `deliver_tx`.
    fn begin_block(&self, begin_block_request: BeginBlockRequest) -> BeginBlockResponse;

    /// Executes a transaction in full.
    fn deliver_tx(&self, deliver_tx_request: DeliverTxRequest) -> Result<DeliverTxResponse>;

    /// Signals the end of a block, after all transactions and before `commit`.
    fn end_block(&self, end_block_request: EndBlockRequest) -> EndBlockResponse;

    /// Persists the application state and returns its hash.
    ///
    /// Before `commit` Tendermint locks and flushes the mempool, so that the consensus,
    /// mempool and info states may all be moved to the latest committed state at once.
    fn commit(&self, commit_request: CommitRequest) -> CommitResponse;

    /// Signals that queued messages should be flushed.
    fn flush(&self, flush_request: FlushRequest) -> FlushResponse {
        FlushResponse {  }
    }
}

/// The mempool: checks of transactions before they are proposed.
///
/// Calls of `check_tx` may run concurrently with one another and with the consensus calls;
/// their responses are returned in the order of the requests.
pub trait Mempool {
    /// Echo a string to test the connection.
    fn echo(&self, echo_request: EchoRequest) -> EchoResponse {
        EchoResponse { message: echo_request.message }
    }

    /// Checks a transaction before it enters the mempool.
    fn check_tx(&self, check_tx_request: CheckTxRequest) -> Result<CheckTxResponse>;

    /// Signals that queued messages should be flushed.
    fn flush(&self, flush_request: FlushRequest) -> FlushResponse {
        FlushResponse {  }
    }
}

/// Serving and restoring state-sync snapshots.
pub trait Snapshot {
    /// Echo a string to test the connection.
    fn echo(&self, echo_request: EchoRequest) -> EchoResponse {
        EchoResponse { message: echo_request.message }
    }

    /// The snapshots that the application holds.
    fn list_snapshots(&self, list_snapshots_request: ListSnapshotsRequest) -> ListSnapshotsResponse {
        ListSnapshotsResponse { snapshots: Vec::new() }
    }

    /// Offers a snapshot when a node bootstraps by state sync.
    fn offer_snapshot(&self, offer_snapshot_request: OfferSnapshotRequest) -> OfferSnapshotResponse {
        OfferSnapshotResponse { result: 0 }
    }

    /// A chunk of a snapshot.
    fn load_snapshot_chunk(
        &self,
        load_snapshot_chunk_request: LoadSnapshotChunkRequest,
    ) -> LoadSnapshotChunkResponse {
        LoadSnapshotChunkResponse { chunk: Vec::new() }
    }

    /// Applies a chunk of a snapshot.
    fn apply_snapshot_chunk(
        &self,
        apply_snapshot_chunk_request: ApplySnapshotChunkRequest,
    ) -> ApplySnapshotChunkResponse {
        ApplySnapshotChunkResponse { result: 0, refetch_chunks: Vec::new(), reject_senders: Vec::new() }
    }

    /// Signals that queued messages should be flushed.
    fn flush(&self, flush_request: FlushRequest) -> FlushResponse {
        FlushResponse {  }
    }
}

} // verus!
