//! The `Query` call.
use crate::error::Error;
use crate::types::Proof;
use vstd::prelude::*;

verus! {

/// Asks for data of the application at the current or a past height.
#[derive(Debug, Clone, Default, PartialEq, Eq)]
pub struct QueryRequest {
    /// Raw query bytes (can be used with or in lieu of `path`)
    pub data: Vec<u8>,
    /// Path of the request, like an HTTP GET path (can be used with or in lieu of `data`)
    ///
    /// Applications must interpret `/store` as a query by key on the underlying store, the
    /// key given in `data`, and should allow queries over specific types like `/accounts/...`.
    pub path: String,
    /// Block height of the query (0 asks for the latest committed block)
    pub height: i64,
    /// Whether a Merkle proof should come with the response, if possible
    pub prove: bool,
}

/// Response to `Query`.
#[derive(Debug, Clone, Default, PartialEq, Eq)]
pub struct QueryResponse {
    /// Result code: 0 means success
    pub code: u32,
    /// Output of the application's logger (may be non-deterministic)
    pub log: String,
    /// Additional information (may be non-deterministic)
    pub info: String,
    /// Index of the key in the tree
    pub index: i64,
    /// Key of the matching data
    pub key: Vec<u8>,
    /// Value of the matching data
    pub value: Vec<u8>,
    /// Proof for the value, if requested, against the app hash of the given height
    pub proof: Option<Proof>,
    /// Block height from which the data was derived
    pub height: i64,
    /// Namespace of the result code
    pub codespace: String,
}

impl QueryResponse {
    /// The response that a handler's result stands for: the response itself, or for an
    /// error a response that carries its code, namespace, log and information.
    pub fn from_result(result: Result<QueryResponse, Error>) -> (r: QueryResponse)
        ensures
            result matches Ok(response) ==> r == response,
            result matches Err(error) ==> {
                &&& r.code == error.code
                &&& r.codespace == error.codespace
                &&& r.log == error.log
                &&& r.info == error.info
                &&& r.index == 0
                &&& r.key@.len() == 0
                &&& r.value@.len() == 0
                &&& r.proof is None
                &&& r.height == 0
            },
    {
        match result {
            Ok(response) => response,
            Err(error) => QueryResponse {
                code: error.code,
                log: error.log,
                info: error.info,
                index: 0,
                key: Vec::new(),
                value: Vec::new(),
                proof: None,
                height: 0,
                codespace: error.codespace,
            },
        }
    }
}

} // verus!
