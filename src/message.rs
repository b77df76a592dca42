//! The request and response envelopes: one variant for each call of the protocol.
use crate::types::{
    ApplySnapshotChunkRequest, ApplySnapshotChunkResponse, BeginBlockRequest, BeginBlockResponse,
    CheckTxRequest, CheckTxResponse, CommitRequest, CommitResponse, DeliverTxRequest,
    DeliverTxResponse, EchoRequest, EchoResponse, EndBlockRequest, EndBlockResponse,
    ExceptionResponse, FlushRequest, FlushResponse, InfoRequest, InfoResponse, InitChainRequest,
    InitChainResponse, ListSnapshotsRequest, ListSnapshotsResponse, LoadSnapshotChunkRequest,
    LoadSnapshotChunkResponse, OfferSnapshotRequest, OfferSnapshotResponse, QueryRequest,
    QueryResponse, SetOptionRequest, SetOptionResponse,
};
use vstd::prelude::*;

verus! {

/// A request from Tendermint.
#[derive(Debug, Clone, PartialEq, Eq)]
pub enum Request {
    Echo(EchoRequest),
    Flush(FlushRequest),
    Info(InfoRequest),
    SetOption(SetOptionRequest),
    InitChain(InitChainRequest),
    Query(QueryRequest),
    BeginBlock(BeginBlockRequest),
    CheckTx(CheckTxRequest),
    DeliverTx(DeliverTxRequest),
    EndBlock(EndBlockRequest),
    Commit(CommitRequest),
    ListSnapshots(ListSnapshotsRequest),
    OfferSnapshot(OfferSnapshotRequest),
    LoadSnapshotChunk(LoadSnapshotChunkRequest),
    ApplySnapshotChunk(ApplySnapshotChunkRequest),
}

/// A response to Tendermint.
#[derive(Debug, Clone, PartialEq, Eq)]
pub enum Response {
    Exception(ExceptionResponse),
    Echo(EchoResponse),
    Flush(FlushResponse),
    Info(InfoResponse),
    SetOption(SetOptionResponse),
    InitChain(InitChainResponse),
    Query(QueryResponse),
    BeginBlock(BeginBlockResponse),
    CheckTx(CheckTxResponse),
    DeliverTx(DeliverTxResponse),
    EndBlock(EndBlockResponse),
    Commit(CommitResponse),
    ListSnapshots(ListSnapshotsResponse),
    OfferSnapshot(OfferSnapshotResponse),
    LoadSnapshotChunk(LoadSnapshotChunkResponse),
    ApplySnapshotChunk(ApplySnapshotChunkResponse),
}

/// The exception response that carries `error`.
pub open spec fn is_exception(r: Response, error: Seq<char>) -> bool {
    r matches Response::Exception(e) && e.error@ == error
}

} // verus!
