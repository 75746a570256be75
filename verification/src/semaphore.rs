//! The admission semaphore: the pool of permits that bounds how many
//! requests are in flight at once.

use vstd::prelude::*;
use std::sync::Arc;
use tokio::sync::Semaphore;

verus! {

/// tokio's counting semaphore, `tokio::sync::Semaphore`. Nothing inside it
/// is visible here.
#[verifier::external_type_specification]
#[verifier::external_body]
pub struct ExSemaphore(Semaphore);

/// The number of permits that a semaphore was created with.
pub uninterp spec fn initial_permits(semaphore: Semaphore) -> nat;

/// The permits handed out where none are configured.
pub const DEFAULT_MAX_CONCURRENT_REQUESTS: u64 = 100;

/// The most permits that a semaphore can hold. It is the value of
/// `tokio::sync::Semaphore::MAX_PERMITS`, which tokio writes as
/// `usize::MAX >> 3`.
pub const MAX_PERMITS: usize = usize::MAX / 8;

/// The number of permits that a setting asks for.
pub open spec fn resolved_permits(max_concurrent_requests: Option<u64>) -> u64 {
    match max_concurrent_requests {
        Some(permits) => permits,
        None => DEFAULT_MAX_CONCURRENT_REQUESTS,
    }
}

/// Whether a semaphore can hold the permits that a setting asks for.
pub open spec fn permits_fit(max_concurrent_requests: Option<u64>) -> bool {
    resolved_permits(max_concurrent_requests) <= MAX_PERMITS
}

/// Calls `tokio::sync::Semaphore::new`, which creates a semaphore with the
/// given number of permits and panics above `MAX_PERMITS`. Assumed, not
/// proved: the semaphore it returns was created with `permits` permits.
#[verifier::external_body]
fn new_semaphore(permits: usize) -> (semaphore: Semaphore)
    requires
        permits <= MAX_PERMITS,
    ensures
        initial_permits(semaphore) == permits,
{
    Semaphore::new(permits)
}

/// Tells whether `build_semaphore` may be called with this setting.
pub fn check_permits(max_concurrent_requests: Option<u64>) -> (fit: bool)
    ensures
        fit == permits_fit(max_concurrent_requests),
{
    let permits: u64 = max_concurrent_requests.unwrap_or(DEFAULT_MAX_CONCURRENT_REQUESTS);
    permits <= MAX_PERMITS as u64
}

/// Builds the shared semaphore. It is always built, with the configured
/// number of permits, or with 100 where none is configured.
pub fn build_semaphore(max_concurrent_requests: Option<u64>) -> (semaphore: Arc<Semaphore>)
    requires
        permits_fit(max_concurrent_requests),
    ensures
        initial_permits(*semaphore) == resolved_permits(max_concurrent_requests),
{
    let permits: u64 = max_concurrent_requests.unwrap_or(DEFAULT_MAX_CONCURRENT_REQUESTS);
    Arc::new(new_semaphore(permits as usize))
}

} // verus!
