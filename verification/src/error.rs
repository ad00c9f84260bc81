//! The library's error taxonomy.
//!
//! Transport, decoding and driver failures are produced by unverified code at
//! the edges of the system; each is mapped into one of these variants before
//! the verified logic sees it.

use vstd::prelude::*;

verus! {

/// Everything that can go wrong while serving an event.
#[derive(Debug, Clone, PartialEq, Eq)]
pub enum Error {
    /// The HTTP transport failed before a response arrived.
    ReqwestError,
    /// A response body (or a request body under construction) was not valid JSON.
    JsonDeserializationError,
    /// The configuration file was present but not valid TOML.
    TomlDeserializationError,
    /// The server answered, but with a non-OK status or `success: false`.
    UnsuccessfulApiRequestError,
    /// A file operation failed.
    IoError,
    /// The GPIO driver reported the given errno.
    Errno(i32),
    /// A caller passed an argument the operation cannot act on.
    InvalidArgument(String),
}

} // verus!
