//! Transport-level delivery: how a payload is carried, and how carrying it ended.

use vstd::prelude::*;

verus! {

/// How an adapter carries payloads.
pub enum AdapterConfig {
    /// HTTP POST to a URL, with an optional `Authorization` header.
    Http { url: String, auth_header: Option<String> },
    /// JSON files written into a directory.
    File { dir: String },
    /// JSON printed on standard output.
    Stdout,
}

/// How carrying one payload ended.
pub enum TransportResult {
    /// The payload was carried.
    Sent,
    RetryableError(String),
    PermanentError(String),
}

} // verus!
