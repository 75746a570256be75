//! The rate limiter: the token bucket that paces requests, built only for a
//! positive number of requests per second.

use vstd::prelude::*;
use std::num::NonZeroU32;
use std::sync::Arc;
use governor::clock::DefaultClock;
use governor::middleware::NoOpMiddleware;
use governor::state::{InMemoryState, NotKeyed};
use governor::Quota;

verus! {

/// governor's description of a rate, `governor::Quota`. Nothing inside it
/// is visible here.
#[verifier::external_type_specification]
#[verifier::external_body]
pub struct ExQuota(Quota);

/// A direct, in-memory rate limiter of governor on its default clock. The
/// limiter is `inner`; workers take one cell from it before each request.
#[verifier::external_body]
#[derive(Debug)]
pub struct RateLimiter {
    pub inner: governor::RateLimiter<NotKeyed, InMemoryState, DefaultClock, NoOpMiddleware>,
}

/// The most cells that a quota lets through in one burst.
pub uninterp spec fn quota_burst(quota: Quota) -> nat;

/// The time, in nanoseconds, that a quota takes to replenish one cell.
pub uninterp spec fn quota_replenish_nanos(quota: Quota) -> nat;

/// The quota that a rate limiter was built for.
pub uninterp spec fn limiter_quota(limiter: RateLimiter) -> Quota;

/// The nanoseconds in a second.
pub const NANOS_PER_SECOND: u32 = 1_000_000_000;

/// Whether `quota` is the quota of `per_second` cells per second: it lets
/// that many through in one burst, and replenishes one cell in that
/// fraction of a second.
pub open spec fn is_per_second(quota: Quota, per_second: u32) -> bool {
    &&& quota_burst(quota) == per_second
    &&& quota_replenish_nanos(quota) == NANOS_PER_SECOND / per_second
}

/// What is built for a setting: a limiter of that many requests per second
/// where the setting is positive, and nothing where it is absent or zero.
pub open spec fn is_limiter_for(
    limiter: Option<Arc<RateLimiter>>,
    requests_per_second: Option<u32>,
) -> bool {
    match requests_per_second {
        Some(rate) if rate > 0 => limiter matches Some(built) && is_per_second(
            limiter_quota(*built),
            rate,
        ),
        _ => limiter is None,
    }
}

/// Calls `governor::Quota::per_second`. Assumed, not proved: the quota it
/// returns has `cells` as its burst size and the whole nanoseconds of one
/// second divided by `cells` as its replenish interval.
#[verifier::external_body]
fn quota_per_second(cells: u32) -> (quota: Quota)
    requires
        cells > 0,
    ensures
        quota_burst(quota) == cells,
        quota_replenish_nanos(quota) == NANOS_PER_SECOND / cells,
{
    Quota::per_second(NonZeroU32::new(cells).unwrap())
}

/// Calls `governor::RateLimiter::direct`, which counts in nanoseconds held
/// in 64 bits and panics on a quota whose whole burst takes longer than
/// that to replenish. Assumed, not proved: the limiter it returns was built
/// for `quota`.
#[verifier::external_body]
fn direct_limiter(quota: Quota) -> (limiter: RateLimiter)
    requires
        quota_replenish_nanos(quota) <= u64::MAX,
        quota_replenish_nanos(quota) * quota_burst(quota) <= u64::MAX,
    ensures
        limiter_quota(limiter) == quota,
{
    RateLimiter { inner: governor::RateLimiter::direct(quota) }
}

/// Builds the shared rate limiter for a positive number of requests per
/// second. Zero is taken as no setting at all: nothing is built then, and
/// requests are not paced.
pub fn build_rate_limiter(requests_per_second: Option<u32>) -> (limiter: Option<Arc<RateLimiter>>)
    ensures
        is_limiter_for(limiter, requests_per_second),
{
    match requests_per_second {
        Some(rate) => {
            if rate > 0 {
                let quota = quota_per_second(rate);
                proof {
                    lemma_burst_replenished_within_a_second(rate);
                }
                Some(Arc::new(direct_limiter(quota)))
            } else {
                None
            }
        },
        None => None,
    }
}

/// Replenishing as many cells as a second holds takes no longer than a
/// second.
proof fn lemma_burst_replenished_within_a_second(per_second: u32)
    requires
        per_second > 0,
    ensures
        (NANOS_PER_SECOND / per_second) * per_second <= NANOS_PER_SECOND,
{
    assert((NANOS_PER_SECOND as int / per_second as int) * per_second as int
        <= NANOS_PER_SECOND as int) by (nonlinear_arith)
        requires
            per_second > 0,
    ;
}

/// A rate limiter is built for a positive rate and for no other setting.
pub proof fn lemma_limiter_iff_positive_rate(
    limiter: Option<Arc<RateLimiter>>,
    requests_per_second: Option<u32>,
)
    requires
        is_limiter_for(limiter, requests_per_second),
    ensures
        limiter is Some <==> (requests_per_second matches Some(rate) && rate > 0),
{
}

/// A rate of zero is no rate: what is built for it is what is built where
/// nothing is configured.
pub proof fn lemma_zero_rate_is_no_rate(limiter: Option<Arc<RateLimiter>>)
    ensures
        is_limiter_for(limiter, Some(0u32)) <==> is_limiter_for(limiter, None),
        is_limiter_for(limiter, Some(0u32)) <==> limiter is None,
{
}

} // verus!
