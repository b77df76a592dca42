//! The `CheckTx` call.
use crate::error::Error;
use crate::types::Event;
use vstd::prelude::*;

verus! {

/// Asks whether a transaction may enter the mempool.
#[derive(Debug, Clone, Default, PartialEq, Eq)]
pub struct CheckTxRequest {
    /// The transaction bytes
    pub tx: Vec<u8>,
    /// Whether this is a new transaction or a re-check
    pub check_type: CheckTxType,
}

/// Kind of a `CheckTx` request.
#[derive(Debug, Clone, Copy, PartialEq, Eq, Structural)]
pub enum CheckTxType {
    /// The transaction has never been checked
    New,
    /// The transaction was checked before: expensive checks (like signatures) may be skipped
    Recheck,
}

impl Default for CheckTxType {
    fn default() -> (r: Self)
        ensures
            r == CheckTxType::New,
    {
        CheckTxType::New
    }
}

/// Response to `CheckTx`.
#[derive(Debug, Clone, Default, PartialEq, Eq)]
pub struct CheckTxResponse {
    /// Result code: 0 accepts the transaction
    pub code: u32,
    /// Result bytes, if any
    pub data: Vec<u8>,
    /// Output of the application's logger (may be non-deterministic)
    pub log: String,
    /// Additional information (may be non-deterministic)
    pub info: String,
    /// Amount of gas requested for the transaction
    pub gas_wanted: i64,
    /// Amount of gas consumed by the transaction
    pub gas_used: i64,
    /// Events for filtering and indexing
    pub events: Vec<Event>,
    /// Namespace of the result code
    pub codespace: String,
}

impl CheckTxResponse {
    /// The response that a handler's result stands for: the response itself, or for an
    /// error a response that carries its code, namespace, log and information.
    pub fn from_result(result: Result<CheckTxResponse, Error>) -> (r: CheckTxResponse)
        ensures
            result matches Ok(response) ==> r == response,
            result matches Err(error) ==> {
                &&& r.code == error.code
                &&& r.codespace == error.codespace
                &&& r.log == error.log
                &&& r.info == error.info
                &&& r.data@.len() == 0
                &&& r.gas_wanted == 0
                &&& r.gas_used == 0
                &&& r.events@.len() == 0
            },
    {
        match result {
            Ok(response) => response,
            Err(error) => CheckTxResponse {
                code: error.code,
                data: Vec::new(),
                log: error.log,
                info: error.info,
                gas_wanted: 0,
                gas_used: 0,
                events: Vec::new(),
                codespace: error.codespace,
            },
        }
    }
}

} // verus!
