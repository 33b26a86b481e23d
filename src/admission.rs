//! Per-client admission control: a token bucket per client key, refilled at
//! a fixed rate. The buckets are kept by `governor`'s keyed rate limiter.

use vstd::prelude::*;

verus! {

/// `governor`'s keyed rate limiter over 128-bit client keys (an IPv4 address
/// is keyed as its IPv6-mapped form). Its buckets are opaque here.
#[verifier::external_body]
pub struct KeyedLimiter {
    inner: governor::DefaultKeyedRateLimiter<u128>,
}

/// The state the limiter keeps per client key: the theoretical arrival time,
/// in nanoseconds since the limiter was made, of the key's next cell.
pub uninterp spec fn arrivals(l: KeyedLimiter) -> Map<u128, u64>;

/// The number of cells per second that the limiter was made with.
pub uninterp spec fn limiter_rate(l: KeyedLimiter) -> u32;

/// Relies on `governor::Quota::per_second` and `RateLimiter::dashmap`: a
/// limiter that lets each key through `per_second` times per second, with a
/// burst of as many, and that starts with no key stored. `Quota::per_second`
/// needs a non-zero rate.
#[verifier::external_body]
fn keyed_limiter(per_second: u32) -> (r: KeyedLimiter)
    requires
        per_second >= 1,
    ensures
        limiter_rate(r) == per_second,
        arrivals(r).dom() == Set::<u128>::empty(),
{
    let rate = std::num::NonZeroU32::new(per_second).unwrap();
    KeyedLimiter { inner: governor::RateLimiter::dashmap(governor::Quota::per_second(rate)) }
}

/// Relies on `RateLimiter::check_key`, which runs the GCRA test of
/// `governor::gcra` on the entry of `key` alone: `Ok` when the key's bucket
/// holds a cell, and then only that entry is rewritten; a refusal writes
/// nothing. Whether it answers `Ok` depends on the time of the call, so that
/// is not stated.
#[verifier::external_body]
fn check_key(limiter: &mut KeyedLimiter, key: u128) -> (r: bool)
    ensures
        arrivals(*final(limiter)).remove(key) == arrivals(*old(limiter)).remove(key),
        !r ==> arrivals(*final(limiter)) == arrivals(*old(limiter)),
        limiter_rate(*final(limiter)) == limiter_rate(*old(limiter)),
{
    limiter.inner.check_key(&key).is_ok()
}

/// The outcome of an admission check.
#[derive(Debug, Clone, Copy, PartialEq, Eq, Structural)]
pub enum Admission {
    Allow,
    Deny,
}

/// Gates requests per client key at a fixed rate per second.
pub struct AdmissionController {
    limiter: KeyedLimiter,
    per_second: u32,
}

impl AdmissionController {
    /// The number of requests per second granted to each key.
    pub closed spec fn quota(&self) -> u32 {
        limiter_rate(self.limiter)
    }

    /// What the controller keeps per client key.
    pub closed spec fn buckets(&self) -> Map<u128, u64> {
        arrivals(self.limiter)
    }

    /// The recorded rate is the limiter's own.
    pub closed spec fn wf(&self) -> bool {
        self.per_second == limiter_rate(self.limiter)
    }

    /// A controller granting `per_second` requests per second to each key;
    /// a rate of zero is raised to one.
    pub fn new(per_second: u32) -> (r: AdmissionController)
        ensures
            r.wf(),
            r.quota() == if per_second == 0 {
                1
            } else {
                per_second
            },
            r.buckets().dom() == Set::<u128>::empty(),
    {
        let rate = if per_second == 0 {
            1
        } else {
            per_second
        };
        AdmissionController { limiter: keyed_limiter(rate), per_second: rate }
    }

    pub fn per_second(&self) -> (r: u32)
        requires
            self.wf(),
        ensures
            r == self.quota(),
    {
        self.per_second
    }

    /// Takes one cell from the bucket of `key` if it holds one. Never blocks.
    /// Only that key's bucket can change, and a denial changes nothing.
    pub fn check(&mut self, key: u128) -> (r: Admission)
        requires
            old(self).wf(),
        ensures
            final(self).wf(),
            final(self).quota() == old(self).quota(),
            final(self).buckets().remove(key) == old(self).buckets().remove(key),
            r == Admission::Deny ==> final(self).buckets() == old(self).buckets(),
    {
        if check_key(&mut self.limiter, key) {
            Admission::Allow
        } else {
            Admission::Deny
        }
    }
}

/// The controller of the gateway for a configured rate per second.
pub fn build_rate_limiter(per_second: u32) -> (r: AdmissionController)
    ensures
        r.wf(),
        r.buckets().dom() == Set::<u128>::empty(),
        r.quota() == if per_second == 0 {
            1
        } else {
            per_second
        },
{
    AdmissionController::new(per_second)
}

} // verus!
