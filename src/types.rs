//! The requests and responses of the ABCI protocol.
mod begin_block;
mod check_tx;
mod commit;
mod deliver_tx;
mod echo;
mod end_block;
mod info;
mod init_chain;
mod misc;
mod query;
mod set_option;
mod snapshot;

pub use self::begin_block::{BeginBlockRequest, BeginBlockResponse};
pub use self::check_tx::{CheckTxRequest, CheckTxResponse, CheckTxType};
pub use self::commit::{CommitRequest, CommitResponse};
pub use self::deliver_tx::{DeliverTxRequest, DeliverTxResponse};
pub use self::echo::{EchoRequest, EchoResponse, ExceptionResponse, FlushRequest, FlushResponse};
pub use self::end_block::{EndBlockRequest, EndBlockResponse};
pub use self::info::{InfoRequest, InfoResponse};
pub use self::init_chain::{InitChainRequest, InitChainResponse};
pub use self::misc::{
    BlockId, BlockParams, ConsensusParams, Event, Evidence, EvidenceParams, Header,
    KeyValuePair, LastCommitInfo, PartSetHeader, Proof, ProofOp, PublicKey, Validator,
    ValidatorParams, ValidatorUpdate, Version, VersionParams, VoteInfo,
};
pub use self::query::{QueryRequest, QueryResponse};
pub use self::set_option::{SetOptionRequest, SetOptionResponse};
pub use self::snapshot::{
    ApplySnapshotChunkRequest, ApplySnapshotChunkResponse, ListSnapshotsRequest,
    ListSnapshotsResponse, LoadSnapshotChunkRequest, LoadSnapshotChunkResponse,
    OfferSnapshotRequest, OfferSnapshotResponse, Snapshot,
};
