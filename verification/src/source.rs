//! Assembly of the source: what the connection attempt gave, the two
//! concurrency controls and the settings passed through.

use vstd::prelude::*;
use std::sync::Arc;
use ethers::providers::Provider;
use tokio::sync::Semaphore;
use crate::args::Args;
use crate::error::ParseError;
use crate::rate_limiter::{build_rate_limiter, is_limiter_for, RateLimiter};
use crate::semaphore::{build_semaphore, initial_permits, permits_fit, resolved_permits};

verus! {

/// The client of ethers, `ethers::providers::Provider`, over any
/// transport. Nothing inside it is visible here.
#[verifier::external_type_specification]
#[verifier::external_body]
#[verifier::reject_recursive_types(P)]
pub struct ExProvider<P>(Provider<P>);

/// How often a rate-limited request is tried again by the transport.
pub const MAX_RETRY: u32 = 10;

/// The wait before the first retry, in milliseconds.
pub const INITIAL_BACKOFF_MS: u64 = 500;

/// The chunks that may be active at once where none are configured.
pub const DEFAULT_MAX_CONCURRENT_CHUNKS: u64 = 3;

/// How the attempt to reach the endpoint ended.
#[verifier::reject_recursive_types(P)]
pub enum Connection<P> {
    /// The client was built and the node told its chain id.
    Identified { provider: Provider<P>, chain_id: u64 },
    /// No client could be built for the endpoint.
    ClientFailed,
    /// The client was built, but the query for the chain id failed.
    ChainIdFailed,
}

/// What every worker of a run shares: the connection and the limits on its
/// use. It is assembled once and read from then on.
#[verifier::reject_recursive_types(P)]
#[derive(Debug)]
pub struct Source<P> {
    /// The client connected to the endpoint.
    pub provider: Arc<Provider<P>>,
    /// The chain id that the node told.
    pub chain_id: u64,
    /// The permits for requests in flight.
    pub semaphore: Arc<Semaphore>,
    /// The pace of requests, where one is configured.
    pub rate_limiter: Option<Arc<RateLimiter>>,
    /// How many items one request asks for.
    pub inner_request_size: u64,
    /// How many chunks may be active at once.
    pub max_concurrent_chunks: u64,
}

/// The number of chunks that a setting asks for.
pub open spec fn resolved_chunks(max_concurrent_chunks: Option<u64>) -> u64 {
    match max_concurrent_chunks {
        Some(chunks) => chunks,
        None => DEFAULT_MAX_CONCURRENT_CHUNKS,
    }
}

impl<P> Source<P> {
    /// Whether this source is the one assembled from `args` for a node
    /// reached through `provider` that told `chain_id`.
    pub open spec fn is_assembled_from(self, args: Args, provider: Provider<P>, chain_id: u64) -> bool {
        &&& *self.provider == provider
        &&& self.chain_id == chain_id
        &&& initial_permits(*self.semaphore) == resolved_permits(args.max_concurrent_requests)
        &&& is_limiter_for(self.rate_limiter, args.requests_per_second)
        &&& self.inner_request_size == args.inner_request_size
        &&& self.max_concurrent_chunks == resolved_chunks(args.max_concurrent_chunks)
    }
}

/// Assembles the source from the settings and from the outcome of the
/// connection attempt. Where the node was identified, the source is built
/// whole; where the attempt failed, for either cause, the one connectivity
/// error is returned and nothing is built.
pub fn parse_source<P>(args: &Args, connection: Connection<P>) -> (result: Result<
    Source<P>,
    ParseError,
>)
    requires
        connection is Identified ==> permits_fit(args.max_concurrent_requests),
    ensures
        match connection {
            Connection::Identified { provider, chain_id } => result matches Ok(source)
                && source.is_assembled_from(*args, provider, chain_id),
            Connection::ClientFailed | Connection::ChainIdFailed => result matches Err(error)
                && error.is_connect_failure(),
        },
{
    let (provider, chain_id) = match connection {
        Connection::Identified { provider, chain_id } => (provider, chain_id),
        Connection::ClientFailed => {
            return Err(ParseError::could_not_connect());
        },
        Connection::ChainIdFailed => {
            return Err(ParseError::could_not_connect());
        },
    };
    let rate_limiter = build_rate_limiter(args.requests_per_second);
    let semaphore = build_semaphore(args.max_concurrent_requests);
    let max_concurrent_chunks: u64 = args.max_concurrent_chunks.unwrap_or(
        DEFAULT_MAX_CONCURRENT_CHUNKS,
    );
    Ok(
        Source {
            provider: Arc::new(provider),
            chain_id,
            semaphore,
            rate_limiter,
            inner_request_size: args.inner_request_size,
            max_concurrent_chunks,
        },
    )
}

/// In an assembled source the rate limiter is there for a positive rate,
/// and for no other setting.
pub proof fn lemma_source_rate_limiter<P>(
    source: Source<P>,
    args: Args,
    provider: Provider<P>,
    chain_id: u64,
)
    requires
        source.is_assembled_from(args, provider, chain_id),
    ensures
        source.rate_limiter is Some <==> (args.requests_per_second matches Some(rate) && rate
            > 0),
{
}

/// The semaphore of an assembled source was created with the configured
/// number of permits, or with 100 where none is configured.
pub proof fn lemma_source_permits<P>(
    source: Source<P>,
    args: Args,
    provider: Provider<P>,
    chain_id: u64,
)
    requires
        source.is_assembled_from(args, provider, chain_id),
    ensures
        args.max_concurrent_requests matches Some(permits) ==> initial_permits(*source.semaphore)
            == permits,
        args.max_concurrent_requests is None ==> initial_permits(*source.semaphore) == 100,
{
}

/// An assembled source allows the configured number of chunks, or 3 where
/// none is configured.
pub proof fn lemma_source_chunks<P>(
    source: Source<P>,
    args: Args,
    provider: Provider<P>,
    chain_id: u64,
)
    requires
        source.is_assembled_from(args, provider, chain_id),
    ensures
        args.max_concurrent_chunks matches Some(chunks) ==> source.max_concurrent_chunks
            == chunks,
        args.max_concurrent_chunks is None ==> source.max_concurrent_chunks == 3,
{
}

} // verus!
