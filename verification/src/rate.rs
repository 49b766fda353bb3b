//! A rate limiter's quota: so many requests per second.

use vstd::prelude::*;
use governor::Quota;
use std::num::NonZeroU32;

verus! {

#[verifier::external_type_specification]
#[verifier::external_body]
pub struct ExQuota(Quota);

/// A `governor` quota, with the rate it was made for.
pub struct RateQuota {
    per_second: u32,
    quota: Quota,
}

impl RateQuota {
    /// The requests per second the quota allows.
    pub closed spec fn rate(self) -> u32 {
        self.per_second
    }

    /// The requests per second the quota allows.
    pub fn per_second(&self) -> (r: u32)
        ensures
            r == self.rate(),
    {
        self.per_second
    }

    /// The quota itself, for building the rate limiter.
    pub fn quota(&self) -> &Quota {
        &self.quota
    }
}

/// `governor::Quota::per_second`: a quota of `rps` cells per second, which
/// is also its largest burst, kept with the rate it was made for. What the
/// quota holds (its replenish interval and burst) is not stated here; it
/// is read only by the rate limiter built from it.
#[verifier::external_body]
pub(crate) fn quota_per_second(rps: u32) -> (q: RateQuota)
    requires
        rps > 0,
    ensures
        q.rate() == rps,
{
    RateQuota { per_second: rps, quota: Quota::per_second(NonZeroU32::new(rps).unwrap()) }
}

} // verus!
