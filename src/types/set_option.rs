//! The `SetOption` call.
use crate::error::Error;
use vstd::prelude::*;

verus! {

/// Sets a non-consensus-critical option of the application.
#[derive(Debug, Clone, Default, PartialEq, Eq)]
pub struct SetOptionRequest {
    /// Key to set
    pub key: String,
    /// Value to set for the key
    pub value: String,
}

/// Response to `SetOption`.
#[derive(Debug, Clone, Default, PartialEq, Eq)]
pub struct SetOptionResponse {
    /// Result code: 0 means success
    pub code: u32,
    /// Output of the application's logger (may be non-deterministic)
    pub log: String,
    /// Additional information (may be non-deterministic)
    pub info: String,
}

impl SetOptionResponse {
    /// The response that a handler's result stands for: the response itself, or for an
    /// error a response that carries its code, log and information.
    pub fn from_result(result: Result<SetOptionResponse, Error>) -> (r: SetOptionResponse)
        ensures
            result matches Ok(response) ==> r == response,
            result matches Err(error) ==> r.code == error.code && r.log == error.log && r.info
                == error.info,
    {
        match result {
            Ok(response) => response,
            Err(error) => SetOptionResponse { code: error.code, log: error.log, info: error.info },
        }
    }
}

} // verus!
