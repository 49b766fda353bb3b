//! Spans and points of time as whole numbers of nanoseconds.
//!
//! Every timing the tool compares, sums or averages is a whole number of
//! nanoseconds; these two types carry that number so that the arithmetic
//! on it can be stated and proved. The application converts to and from
//! `std::time` at its edge.

use vstd::prelude::*;

verus! {

/// Nanoseconds in one second.
pub const NANOS_PER_SEC: u128 = 1_000_000_000;

/// The largest span a `std::time::Duration` can hold, in nanoseconds:
/// `u64::MAX` whole seconds and 999_999_999 nanoseconds.
pub const MAX_NANOS: u128 = 18_446_744_073_709_551_615_999_999_999;

/// A span of time, exactly as many nanoseconds as a `std::time::Duration`
/// can hold.
#[derive(Clone, Copy, Debug, PartialEq, Eq, Structural, PartialOrd, Ord, Hash)]
pub struct Duration {
    nanos: u128,
}

impl Duration {
    #[verifier::type_invariant]
    spec fn fits(self) -> bool {
        self.nanos <= MAX_NANOS
    }

    /// The span in nanoseconds.
    pub closed spec fn nanos(self) -> nat {
        self.nanos as nat
    }

    /// The span of `n` nanoseconds, where it fits.
    pub closed spec fn from_nanos_spec(n: nat) -> Duration {
        Duration { nanos: n as u128 }
    }

    /// Two spans of the same length are the same span.
    pub proof fn lemma_same_nanos(a: Duration, b: Duration)
        requires
            a.nanos() == b.nanos(),
        ensures
            a == b,
    {
    }

    /// The span of length zero.
    pub fn zero() -> (d: Duration)
        ensures
            d.nanos() == 0,
            d == Duration::from_nanos_spec(0),
    {
        Duration { nanos: 0 }
    }

    /// `secs` seconds and `nanos` nanoseconds; nanoseconds beyond one second
    /// carry into the seconds, as `std::time::Duration::new` does.
    pub fn new(secs: u64, nanos: u32) -> (d: Duration)
        requires
            secs as int * NANOS_PER_SEC as int + nanos as int <= MAX_NANOS as int,
        ensures
            d.nanos() == secs as int * NANOS_PER_SEC as int + nanos as int,
    {
        let total: u128 = (secs as u128) * NANOS_PER_SEC + (nanos as u128);
        Duration { nanos: total }
    }

    /// A span of `nanos` nanoseconds.
    pub fn from_nanos(nanos: u64) -> (d: Duration)
        ensures
            d.nanos() == nanos,
    {
        Duration { nanos: nanos as u128 }
    }

    /// A span of `micros` microseconds.
    pub fn from_micros(micros: u64) -> (d: Duration)
        ensures
            d.nanos() == micros as int * 1000,
    {
        Duration { nanos: (micros as u128) * 1000 }
    }

    /// A span of `millis` milliseconds.
    pub fn from_millis(millis: u64) -> (d: Duration)
        ensures
            d.nanos() == millis as int * 1_000_000,
    {
        Duration { nanos: (millis as u128) * 1_000_000 }
    }

    /// A span of `secs` whole seconds.
    pub fn from_secs(secs: u64) -> (d: Duration)
        ensures
            d.nanos() == secs as int * NANOS_PER_SEC as int,
    {
        Duration { nanos: (secs as u128) * NANOS_PER_SEC }
    }

    /// A span of `nanos` nanoseconds, where `nanos` may exceed `u64::MAX`.
    pub fn from_nanos_u128(nanos: u128) -> (d: Duration)
        requires
            nanos <= MAX_NANOS,
        ensures
            d.nanos() == nanos,
    {
        Duration { nanos }
    }

    /// The whole span in nanoseconds.
    pub fn as_nanos(&self) -> (n: u128)
        ensures
            n == self.nanos(),
            n <= MAX_NANOS,
    {
        proof {
            use_type_invariant(self);
        }
        self.nanos
    }

    /// The whole span in microseconds, rounded down.
    pub fn as_micros(&self) -> (n: u128)
        ensures
            n == self.nanos() / 1000,
    {
        self.nanos / 1000
    }

    /// The whole span in milliseconds, rounded down.
    pub fn as_millis(&self) -> (n: u128)
        ensures
            n == self.nanos() / 1_000_000,
    {
        self.nanos / 1_000_000
    }

    /// The whole seconds of the span.
    pub fn as_secs(&self) -> (n: u64)
        ensures
            n == self.nanos() / NANOS_PER_SEC as nat,
    {
        proof {
            use_type_invariant(self);
        }
        (self.nanos / NANOS_PER_SEC) as u64
    }

    /// The nanoseconds of the span beyond its whole seconds.
    pub fn subsec_nanos(&self) -> (n: u32)
        ensures
            n == self.nanos() % NANOS_PER_SEC as nat,
            n < NANOS_PER_SEC,
    {
        (self.nanos % NANOS_PER_SEC) as u32
    }

    /// Whether the span has length zero.
    pub fn is_zero(&self) -> (b: bool)
        ensures
            b == (self.nanos() == 0),
    {
        self.nanos == 0
    }

    /// Whether this span is strictly shorter than `other`.
    pub fn lt(&self, other: &Duration) -> (b: bool)
        ensures
            b == (self.nanos() < other.nanos()),
    {
        self.nanos < other.nanos
    }

    /// Whether this span is no longer than `other`.
    pub fn le(&self, other: &Duration) -> (b: bool)
        ensures
            b == (self.nanos() <= other.nanos()),
    {
        self.nanos <= other.nanos
    }

    /// The sum of two spans; the caller shows that it fits, as
    /// `std::time::Duration` panics where it does not.
    pub fn add(&self, other: &Duration) -> (d: Duration)
        requires
            self.nanos() + other.nanos() <= MAX_NANOS,
        ensures
            d.nanos() == self.nanos() + other.nanos(),
    {
        Duration { nanos: self.nanos + other.nanos }
    }

    /// The sum of two spans, or `None` where it does not fit.
    pub fn checked_add(&self, other: &Duration) -> (d: Option<Duration>)
        ensures
            self.nanos() + other.nanos() <= MAX_NANOS ==> d == Some(self.add_spec(*other)),
            self.nanos() + other.nanos() > MAX_NANOS ==> d is None,
            d matches Some(s) ==> s.nanos() == self.nanos() + other.nanos(),
    {
        proof {
            use_type_invariant(self);
            use_type_invariant(other);
        }
        if self.nanos <= MAX_NANOS - other.nanos {
            Some(Duration { nanos: self.nanos + other.nanos })
        } else {
            None
        }
    }

    /// The span of `self.nanos() + other.nanos()` nanoseconds, where it fits.
    pub closed spec fn add_spec(self, other: Duration) -> Duration {
        Duration { nanos: (self.nanos + other.nanos) as u128 }
    }

    /// `self` less `other`, or zero where `other` is the longer span.
    pub fn saturating_sub(&self, other: &Duration) -> (d: Duration)
        ensures
            d.nanos() == if self.nanos() >= other.nanos() {
                self.nanos() - other.nanos()
            } else {
                0
            },
    {
        proof {
            use_type_invariant(self);
        }
        if self.nanos >= other.nanos {
            Duration { nanos: self.nanos - other.nanos }
        } else {
            Duration { nanos: 0 }
        }
    }

    /// The span `rhs` times as long; the caller shows that it fits.
    pub fn mul_u32(&self, rhs: u32) -> (d: Duration)
        requires
            self.nanos() * rhs <= MAX_NANOS,
        ensures
            d.nanos() == self.nanos() * rhs,
    {
        proof {
            use_type_invariant(self);
            assert(self.nanos as int * rhs as int <= MAX_NANOS as int);
        }
        Duration { nanos: self.nanos * (rhs as u128) }
    }

    /// The span divided by `rhs`, rounded down to the nanosecond.
    pub fn div_u32(&self, rhs: u32) -> (d: Duration)
        requires
            rhs > 0,
        ensures
            d.nanos() == self.nanos() / (rhs as nat),
    {
        proof {
            use_type_invariant(self);
            assert(self.nanos as int / rhs as int <= self.nanos as int) by (nonlinear_arith)
                requires
                    rhs > 0,
                    self.nanos >= 0,
            ;
        }
        Duration { nanos: self.nanos / (rhs as u128) }
    }
}

/// A point in time, as the span that has passed since the clock origin
/// that the application fixes when it starts.
#[derive(Clone, Copy, Debug, PartialEq, Eq, Structural, PartialOrd, Ord, Hash)]
pub struct Instant {
    since_origin: Duration,
}

impl Instant {
    /// Nanoseconds since the clock origin.
    pub closed spec fn nanos(self) -> nat {
        self.since_origin.nanos()
    }

    /// The point `since_origin` after the clock origin.
    pub fn at(since_origin: Duration) -> (i: Instant)
        ensures
            i.nanos() == since_origin.nanos(),
    {
        Instant { since_origin }
    }

    /// The span from the clock origin to this point.
    pub fn since_origin(&self) -> (d: Duration)
        ensures
            d.nanos() == self.nanos(),
    {
        self.since_origin
    }

    /// The span from `earlier` to `self`, or `None` when `earlier` is later,
    /// as `std::time::Instant::checked_duration_since` does.
    pub fn checked_duration_since(&self, earlier: &Instant) -> (d: Option<Duration>)
        ensures
            self.nanos() >= earlier.nanos() ==> (d matches Some(s) && s.nanos() == self.nanos()
                - earlier.nanos()),
            self.nanos() < earlier.nanos() ==> d is None,
    {
        if earlier.since_origin.le(&self.since_origin) {
            Some(self.since_origin.saturating_sub(&earlier.since_origin))
        } else {
            None
        }
    }

    /// The span from `earlier` to `self`, or zero when `earlier` is later,
    /// as `std::time::Instant::duration_since` does.
    pub fn duration_since(&self, earlier: &Instant) -> (d: Duration)
        ensures
            d.nanos() == if self.nanos() >= earlier.nanos() {
                self.nanos() - earlier.nanos()
            } else {
                0
            },
    {
        self.since_origin.saturating_sub(&earlier.since_origin)
    }

    /// The point `d` after `self`, or `None` where it would not fit.
    pub fn checked_add(&self, d: &Duration) -> (r: Option<Instant>)
        ensures
            self.nanos() + d.nanos() <= MAX_NANOS ==> (r matches Some(i) && i.nanos() == self.nanos()
                + d.nanos()),
            self.nanos() + d.nanos() > MAX_NANOS ==> r is None,
    {
        match self.since_origin.checked_add(d) {
            Some(s) => Some(Instant { since_origin: s }),
            None => None,
        }
    }

    /// Whether `self` comes strictly before `other`.
    pub fn lt(&self, other: &Instant) -> (b: bool)
        ensures
            b == (self.nanos() < other.nanos()),
    {
        self.since_origin.lt(&other.since_origin)
    }
}

} // verus!
