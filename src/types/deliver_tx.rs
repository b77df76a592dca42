//! The `DeliverTx` call.
use crate::error::Error;
use crate::types::Event;
use vstd::prelude::*;

verus! {

/// Asks the application to execute a transaction of the current block.
#[derive(Debug, Clone, Default, PartialEq, Eq)]
pub struct DeliverTxRequest {
    /// The transaction bytes
    pub tx: Vec<u8>,
}

/// Response to `DeliverTx`.
#[derive(Debug, Clone, Default, PartialEq, Eq)]
pub struct DeliverTxResponse {
    /// Result code: 0 means success
    pub code: u32,
    /// Result bytes, if any
    pub data: Vec<u8>,
    /// Output of the application's logger (may be non-deterministic)
    pub log: String,
    /// Additional information (may be non-deterministic)
    pub info: String,
    /// Amount of gas requested for the transaction
    pub gas_wanted: i64,
    /// Amount of gas consumed by the transaction
    pub gas_used: i64,
    /// Events for filtering and indexing
    pub events: Vec<Event>,
    /// Namespace of the result code
    pub codespace: String,
}

impl DeliverTxResponse {
    /// The response that a handler's result stands for: the response itself, or for an
    /// error a response that carries its code, namespace, log and information.
    pub fn from_result(result: Result<DeliverTxResponse, Error>) -> (r: DeliverTxResponse)
        ensures
            result matches Ok(response) ==> r == response,
            result matches Err(error) ==> {
                &&& r.code == error.code
                &&& r.codespace == error.codespace
                &&& r.log == error.log
                &&& r.info == error.info
                &&& r.data@.len() == 0
                &&& r.gas_wanted == 0
                &&& r.gas_used == 0
                &&& r.events@.len() == 0
            },
    {
        match result {
            Ok(response) => response,
            Err(error) => DeliverTxResponse {
                code: error.code,
                data: Vec::new(),
                log: error.log,
                info: error.info,
                gas_wanted: 0,
                gas_used: 0,
                events: Vec::new(),
                codespace: error.codespace,
            },
        }
    }
}

} // verus!
