//! The settings that the construction of a source reads.

use vstd::prelude::*;

verus! {

/// What a caller configures. Every optional setting has a default that
/// applies when it is absent.
#[derive(Debug)]
pub struct Args {
    /// The endpoint, given explicitly.
    pub rpc: Option<String>,
    /// The pace of requests. Absent or zero: requests are not paced.
    pub requests_per_second: Option<u32>,
    /// How many requests may be in flight at once.
    pub max_concurrent_requests: Option<u64>,
    /// How many chunks may be active at once.
    pub max_concurrent_chunks: Option<u64>,
    /// How many items one request asks for.
    pub inner_request_size: u64,
}

} // verus!
