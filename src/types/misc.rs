//! Parameter, header, validator and event types shared by several messages.
use std::time::Duration;
use vstd::prelude::*;

verus! {

/// Consensus-critical parameters of a chain.
#[derive(Debug, Clone, Default, PartialEq, Eq)]
pub struct ConsensusParams {
    /// Parameters limiting the size of a block and time between consecutive blocks
    pub block: Option<BlockParams>,
    /// Parameters limiting the validity of evidence of byzantine behavior
    pub evidence: Option<EvidenceParams>,
    /// Parameters limiting the types of public keys validators can use
    pub validator: Option<ValidatorParams>,
    /// Parameters on the application's protocol version
    pub version: Option<VersionParams>,
}

/// Limits on the size of a block.
#[derive(Debug, Clone, Default, PartialEq, Eq)]
pub struct BlockParams {
    /// Max size of a block, in bytes
    pub max_bytes: i64,
    /// Max sum of `gas_wanted` in a proposed block
    ///
    /// Blocks that violate this may be committed if there are Byzantine proposers. It is the
    /// application's responsibility to handle this when processing a block.
    pub max_gas: i64,
}

/// Limits on the age and size of evidence.
///
/// Tendermint only rejects an evidence if it is older than both `max_age_num_blocks` and
/// `max_age_duration`. This should correspond with an application's "unbonding period" or a
/// similar mechanism for handling Nothing-At-Stake attacks.
#[derive(Debug, Clone, Default, PartialEq, Eq)]
pub struct EvidenceParams {
    /// Max age of evidence, in blocks
    pub max_age_num_blocks: i64,
    /// Max age of evidence, in time
    pub max_age_duration: Option<Duration>,
    /// Max total size of the evidence in a block, in bytes
    pub max_bytes: i64,
}

/// The public key types that validators may use.
#[derive(Debug, Clone, Default, PartialEq, Eq)]
pub struct ValidatorParams {
    /// List of accepted public key types (same naming as `PublicKey::public_key_type`)
    pub public_key_types: Vec<String>,
}

/// The application's protocol version.
#[derive(Debug, Clone, Default, PartialEq, Eq)]
pub struct VersionParams {
    /// Version of the application
    pub app_version: u64,
}

/// A change to the validator set.
#[derive(Debug, Clone, Default, PartialEq, Eq)]
pub struct ValidatorUpdate {
    /// Public key of the validator
    pub public_key: Option<PublicKey>,
    /// Voting power of the validator (0 removes it)
    pub power: i64,
}

/// A validator's public key.
#[derive(Debug, Clone, Default, PartialEq, Eq)]
pub struct PublicKey {
    /// Type of the public key, such as `ed25519` or `secp256k1`
    pub public_key_type: String,
    /// Raw bytes of the public key
    pub data: Vec<u8>,
}

/// A chain of Merkle proofs.
#[derive(Debug, Clone, Default, PartialEq, Eq)]
pub struct Proof {
    /// List of chained Merkle proofs, of possibly different types
    ///
    /// The Merkle root of one operation is the value being proven in the next one, and the
    /// root of the final operation should equal the root hash being verified against.
    pub ops: Vec<ProofOp>,
}

/// One Merkle proof of a chain.
#[derive(Debug, Clone, Default, PartialEq, Eq)]
pub struct ProofOp {
    /// Type of Merkle proof and how it is encoded
    pub proof_op_type: String,
    /// Key in the Merkle tree that this proof is for
    pub key: Vec<u8>,
    /// Encoded Merkle proof for the key
    pub data: Vec<u8>,
}

/// Protocol versions of a block.
#[derive(Debug, Clone, Default, PartialEq, Eq)]
pub struct Version {
    /// Protocol version of the blockchain data structures
    pub block: u64,
    /// Protocol version of the application
    pub app: u64,
}

/// Header of the set of parts of a block.
#[derive(Debug, Clone, Default, PartialEq, Eq)]
pub struct PartSetHeader {
    /// Number of parts
    pub total: u32,
    /// Hash of the parts
    pub hash: Vec<u8>,
}

/// Identifier of a block.
#[derive(Debug, Clone, Default, PartialEq, Eq)]
pub struct BlockId {
    /// Hash of the block
    pub hash: Vec<u8>,
    /// Header of the block's parts
    pub parts_header: Option<PartSetHeader>,
}

/// Header of a block.
#[derive(Debug, Clone, Default, PartialEq, Eq)]
pub struct Header {
    /// Version of the blockchain and the application
    pub version: Option<Version>,
    /// ID of the blockchain
    pub chain_id: String,
    /// Height of the block in the chain
    pub height: i64,
    /// Time of the block (duration since the epoch)
    pub time: Option<Duration>,
    /// ID of the previous block
    pub last_block_id: Option<BlockId>,
    /// Hash of the previous block's commit
    pub last_commit_hash: Vec<u8>,
    /// Hash of the data in the block
    pub data_hash: Vec<u8>,
    /// Hash of the validator set for this block
    pub validators_hash: Vec<u8>,
    /// Hash of the validator set for the next block
    pub next_validators_hash: Vec<u8>,
    /// Hash of the consensus parameters for this block
    pub consensus_hash: Vec<u8>,
    /// Data returned by the last call to `Commit`: typically the Merkle root of the
    /// application state after executing the previous block's transactions
    pub app_hash: Vec<u8>,
    /// Hash of the results returned by the last block
    pub last_results_hash: Vec<u8>,
    /// Hash of the evidence included in this block
    pub evidence_hash: Vec<u8>,
    /// Address of the proposer of the block
    pub proposer_address: Vec<u8>,
}

/// A validator and its voting power.
#[derive(Debug, Clone, Default, PartialEq, Eq)]
pub struct Validator {
    /// Address of the validator (hash of the public key)
    pub address: Vec<u8>,
    /// Voting power of the validator
    pub power: i64,
}

/// Whether a validator signed the last block.
#[derive(Debug, Clone, Default, PartialEq, Eq)]
pub struct VoteInfo {
    /// A validator
    pub validator: Option<Validator>,
    /// Whether the validator signed the last block
    pub signed_last_block: bool,
}

/// The votes of the last commit.
#[derive(Debug, Clone, Default, PartialEq, Eq)]
pub struct LastCommitInfo {
    /// Commit round
    pub round: i32,
    /// Validators of the last validator set, with their voting power and whether they signed
    pub votes: Vec<VoteInfo>,
}

/// Evidence that a validator acted maliciously.
#[derive(Debug, Clone, Default, PartialEq, Eq)]
pub struct Evidence {
    /// Kind of the evidence, as its protocol number
    pub evidence_type: i32,
    /// The offending validator
    pub validator: Option<Validator>,
    /// Height when the offense was committed
    pub height: i64,
    /// Time of the block at `height` (duration since the epoch)
    pub time: Option<Duration>,
    /// Total voting power of the validator set at `height`
    pub total_voting_power: i64,
}

/// A key-value attribute of an event.
#[derive(Debug, Clone, Default, PartialEq, Eq)]
pub struct KeyValuePair {
    /// Key
    pub key: Vec<u8>,
    /// Value
    pub value: Vec<u8>,
    /// Whether the attribute is indexed
    pub index: bool,
}

/// An event for filtering and indexing.
#[derive(Debug, Clone, Default, PartialEq, Eq)]
pub struct Event {
    /// Event type
    pub event_type: String,
    /// Attributes
    pub attributes: Vec<KeyValuePair>,
}

} // verus!
