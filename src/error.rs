//! The error that an application handler may report.
use vstd::prelude::*;

verus! {

/// Error of an application handler, carried by the fields of its response.
#[derive(Debug, Clone, Default, PartialEq, Eq)]
pub struct Error {
    /// Error code
    pub code: u32,
    /// Namespace of the error code
    pub codespace: String,
    /// Output of the application's logger (may be non-deterministic)
    pub log: String,
    /// Additional information (may be non-deterministic)
    pub info: String,
}

/// Result of an application handler.
pub type Result<T> = core::result::Result<T, Error>;

} // verus!
