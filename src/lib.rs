//! A library for hosting Tendermint ABCI applications.
//!
//! The verified core holds the length-prefixed frame codec, the message model of the
//! ABCI requests and responses, the consensus state validator that enforces the call
//! ordering of a block, and the per-connection dispatch of requests to the four
//! capability interfaces that an application implements.
pub mod application;
pub mod async_impls;
pub mod codec;
pub mod connection;
pub mod error;
pub mod handler;
pub mod message;
pub mod state;
pub mod text;
pub mod types;
pub mod varint;

pub use self::application::{Consensus, Info, Mempool, Snapshot};
pub use self::error::{Error, Result};
pub use self::state::{BlockExecutionState, ConsensusState, ConsensusStateValidator};
