//! Latency histograms over `hdrhistogram`.
//!
//! The recorded values are modelled as a multiset of nanosecond counts. The
//! histogram keeps them in buckets of three significant figures, so its
//! percentiles and extremes are approximations of that multiset; what is
//! stated here of them is what the bucketing keeps exact (the count) or
//! bounds (the extremes).

use vstd::prelude::*;
use vstd::multiset::Multiset;
use hdrhistogram::{AdditionError, CreationError, Histogram, RecordError};
use crate::time::Duration;

verus! {

/// An `hdrhistogram::Histogram<u64>`, held opaquely (Verus does not take a
/// declaration of the generic type, whose parameter is bound by a trait of
/// that crate).
#[verifier::external_body]
pub struct HdrHistogram {
    /// The histogram itself. Verus treats this struct as opaque and refuses
    /// any read of the field in verified code; only the application reads
    /// it, for the floating-point statistics (percentiles, mean, spread).
    pub inner: Histogram<u64>,
}

#[verifier::external_type_specification]
#[verifier::external_body]
pub struct ExCreationError(CreationError);

#[verifier::external_type_specification]
#[verifier::external_body]
pub struct ExRecordError(RecordError);

#[verifier::external_type_specification]
#[verifier::external_body]
pub struct ExAdditionError(AdditionError);

/// The values recorded into an `hdrhistogram::Histogram<u64>`.
pub uninterp spec fn histogram_values(h: HdrHistogram) -> Multiset<u64>;

/// The `(low, high, sigfig)` an `hdrhistogram::Histogram<u64>` was made with.
pub uninterp spec fn histogram_bounds(h: HdrHistogram) -> (u64, u64, u8);

/// `Histogram::<u64>::new_with_bounds`: an empty histogram for values up to
/// `high` with `sigfig` significant figures. With `low` 1, `high` at least 2
/// and `sigfig` at most 5 every check the constructor makes passes, so it
/// gives `Ok`.
#[verifier::external_body]
pub(crate) fn histogram_with_bounds(low: u64, high: u64, sigfig: u8) -> (r: Result<
    HdrHistogram,
    CreationError,
>)
    requires
        low == 1,
        high >= 2,
        sigfig <= 5,
    ensures
        r is Ok,
        histogram_values(r->Ok_0) =~= Multiset::empty(),
        histogram_bounds(r->Ok_0) == (low, high, sigfig),
{
    Histogram::<u64>::new_with_bounds(low, high, sigfig).map(|inner| HdrHistogram { inner })
}

/// `Histogram::record`: a value no greater than the histogram's `high` is
/// always recorded; a value beyond it may be refused (the histograms made
/// here do not resize), and a refused value leaves the histogram as it was.
#[verifier::external_body]
pub(crate) fn histogram_record(h: &mut HdrHistogram, value: u64) -> (r: Result<(), RecordError>)
    ensures
        histogram_bounds(*final(h)) == histogram_bounds(*old(h)),
        value <= histogram_bounds(*old(h)).1 ==> r is Ok,
        r is Ok ==> histogram_values(*final(h)) == histogram_values(*old(h)).insert(value),
        r is Err ==> histogram_values(*final(h)) == histogram_values(*old(h)),
{
    h.inner.record(value)
}

/// `Histogram::high`: the highest trackable value, as the histogram was made.
#[verifier::external_body]
pub(crate) fn histogram_high(h: &HdrHistogram) -> (r: u64)
    ensures
        r == histogram_bounds(*h).1,
{
    h.inner.high()
}

/// `Histogram::len`: the number of values recorded, saturating at `u64::MAX`.
#[verifier::external_body]
pub(crate) fn histogram_len(h: &HdrHistogram) -> (r: u64)
    ensures
        r == if histogram_values(*h).len() <= u64::MAX {
            histogram_values(*h).len()
        } else {
            u64::MAX as nat
        },
{
    h.inner.len()
}

/// Whether `r` is at most some value of `m`, and short of it by at most a
/// 1024th of it: the floor of that value's bucket, at three significant
/// figures.
pub open spec fn floor_of_some(m: Multiset<u64>, r: u64) -> bool {
    exists|v: u64| #[trigger] m.contains(v) && r <= v && v - r <= v / 1024
}

/// Whether `r` is at least some value of `m`, and past it by at most a
/// 1024th of it: the ceiling of that value's bucket, at three significant
/// figures.
pub open spec fn ceiling_of_some(m: Multiset<u64>, r: u64) -> bool {
    exists|v: u64| #[trigger] m.contains(v) && v <= r && r - v <= v / 1024
}

/// `Histogram::min`: zero when nothing is recorded (or a zero was);
/// otherwise the lowest value of the bucket of the least recorded value
/// (`lowest_equivalent`). With the tool's bounds (1 to 60 s, three
/// significant figures) a bucket is 2^k wide for values of at least
/// 1024 * 2^k, so the result is no greater than any recorded value and
/// falls short of the least one by at most a 1024th of it.
#[verifier::external_body]
pub(crate) fn histogram_min(h: &HdrHistogram) -> (r: u64)
    requires
        histogram_bounds(*h) == latency_bounds(),
    ensures
        histogram_values(*h).len() == 0 ==> r == 0,
        forall|v: u64| histogram_values(*h).contains(v) ==> r <= v,
        histogram_values(*h).len() > 0 ==> floor_of_some(histogram_values(*h), r),
{
    h.inner.min()
}

/// `Histogram::max`: zero when nothing is recorded; otherwise the highest
/// value of the bucket of the largest recorded value
/// (`highest_equivalent`). With the tool's bounds a bucket is 2^k wide for
/// values of at least 1024 * 2^k, so the result is no less than any
/// recorded value and exceeds the largest one by at most a 1024th of it.
#[verifier::external_body]
pub(crate) fn histogram_max(h: &HdrHistogram) -> (r: u64)
    requires
        histogram_bounds(*h) == latency_bounds(),
    ensures
        histogram_values(*h).len() == 0 ==> r == 0,
        forall|v: u64| histogram_values(*h).contains(v) ==> v <= r,
        histogram_values(*h).len() > 0 ==> ceiling_of_some(histogram_values(*h), r),
{
    h.inner.max()
}

/// `Histogram::add`: adds the values of `other`. Between histograms made
/// with the same bounds (and not resizing) it always succeeds.
#[verifier::external_body]
pub(crate) fn histogram_add(h: &mut HdrHistogram, other: &HdrHistogram) -> (r: Result<
    (),
    AdditionError,
>)
    requires
        histogram_bounds(*old(h)) == histogram_bounds(*other),
    ensures
        r is Ok,
        histogram_bounds(*final(h)) == histogram_bounds(*old(h)),
        histogram_values(*final(h)) == histogram_values(*old(h)).add(histogram_values(*other)),
{
    h.inner.add(&other.inner)
}

/// The highest latency the histograms track: 60 seconds, in nanoseconds.
pub const MAX_TRACKED_NANOS: u64 = 60_000_000_000;

/// The bounds every histogram of the tool is made with: values from 1 to 60
/// seconds in nanoseconds, three significant figures.
pub open spec fn latency_bounds() -> (u64, u64, u8) {
    (1, MAX_TRACKED_NANOS, 3)
}

/// An empty histogram with the tool's bounds.
pub fn new_latency_hdr() -> (h: HdrHistogram)
    ensures
        histogram_values(h) =~= Multiset::empty(),
        histogram_bounds(h) == latency_bounds(),
{
    histogram_with_bounds(1, MAX_TRACKED_NANOS, 3).unwrap()
}

/// `n` truncated to its low 64 bits, as `n as u64` does.
pub open spec fn low_bits(n: nat) -> u64 {
    (n % 0x1_0000_0000_0000_0000) as u64
}

/// The nanoseconds of `d`, truncated to 64 bits as `as_nanos() as u64` does.
pub fn nanos_u64(d: Duration) -> (n: u64)
    ensures
        n == low_bits(d.nanos()),
{
    let x = d.as_nanos();
    let n = #[verifier::truncate] (x as u64);
    assert(n == x % 0x1_0000_0000_0000_0000) by (bit_vector)
        requires
            n == #[verifier::truncate] (x as u64),
    ;
    n
}

/// A span of `n` nanoseconds as the histograms record it: truncated to 64
/// bits, then clamped to the highest trackable value (60 seconds).
pub open spec fn tracked_nanos(n: nat) -> u64 {
    vstd::math::min(low_bits(n) as int, MAX_TRACKED_NANOS as int) as u64
}

/// The number of values in `m`, saturating at `u64::MAX`.
pub open spec fn saturating_count(m: Multiset<u64>) -> nat {
    if m.len() <= u64::MAX {
        m.len()
    } else {
        u64::MAX as nat
    }
}

/// A latency histogram with nanosecond precision up to 60 seconds.
pub struct LatencyHistogram {
    inner: HdrHistogram,
}

impl LatencyHistogram {
    #[verifier::type_invariant]
    spec fn bounded(self) -> bool {
        histogram_bounds(self.inner) == latency_bounds()
    }

    /// The latencies recorded, in nanoseconds (after clamping).
    pub closed spec fn values(self) -> Multiset<u64> {
        histogram_values(self.inner)
    }

    /// Creates an empty histogram tracking nanoseconds with three
    /// significant figures.
    pub fn new() -> (h: LatencyHistogram)
        ensures
            h.values() =~= Multiset::empty(),
    {
        LatencyHistogram { inner: new_latency_hdr() }
    }

    /// Records one latency: its nanoseconds, truncated to 64 bits and
    /// clamped to the highest trackable value (60 seconds).
    pub fn record(&mut self, duration: Duration)
        ensures
            final(self).values() == old(self).values().insert(tracked_nanos(duration.nanos())),
    {
        proof {
            use_type_invariant(&*self);
        }
        let nanos = nanos_u64(duration);
        let high = histogram_high(&self.inner);
        let clamped = if nanos < high {
            nanos
        } else {
            high
        };
        let mut inner = new_latency_hdr();
        std::mem::swap(&mut inner, &mut self.inner);
        let _ = histogram_record(&mut inner, clamped);
        self.inner = inner;
    }

    /// The lowest recorded latency's bucket floor (zero when empty): no
    /// greater than any recorded latency, and short of the least one by at
    /// most a 1024th of it.
    pub fn min(&self) -> (d: Duration)
        ensures
            self.values().len() == 0 ==> d.nanos() == 0,
            forall|v: u64| self.values().contains(v) ==> d.nanos() <= v,
            self.values().len() > 0 ==> exists|v: u64|
                #[trigger] self.values().contains(v) && d.nanos() <= v && v - d.nanos() <= v / 1024,
    {
        proof {
            use_type_invariant(self);
        }
        Duration::from_nanos(histogram_min(&self.inner))
    }

    /// The highest recorded latency's bucket ceiling (zero when empty): no
    /// less than any recorded latency, and past the largest one by at most a
    /// 1024th of it.
    pub fn max(&self) -> (d: Duration)
        ensures
            self.values().len() == 0 ==> d.nanos() == 0,
            forall|v: u64| self.values().contains(v) ==> v <= d.nanos(),
            self.values().len() > 0 ==> exists|v: u64|
                #[trigger] self.values().contains(v) && v <= d.nanos() && d.nanos() - v <= v / 1024,
    {
        proof {
            use_type_invariant(self);
        }
        Duration::from_nanos(histogram_max(&self.inner))
    }

    /// The number of latencies recorded (saturating at `u64::MAX`).
    pub fn count(&self) -> (n: u64)
        ensures
            n == saturating_count(self.values()),
    {
        histogram_len(&self.inner)
    }

    /// Adds the latencies of `other` to this histogram.
    pub fn merge(&mut self, other: &LatencyHistogram)
        ensures
            final(self).values() == old(self).values().add(other.values()),
    {
        proof {
            use_type_invariant(&*self);
            use_type_invariant(other);
        }
        let mut inner = new_latency_hdr();
        std::mem::swap(&mut inner, &mut self.inner);
        let _ = histogram_add(&mut inner, &other.inner);
        self.inner = inner;
    }

    /// The underlying `hdrhistogram` histogram, for the floating-point
    /// statistics (percentiles, mean, standard deviation) that the
    /// application reads from it.
    pub fn hdr(&self) -> (h: &HdrHistogram)
        ensures
            histogram_values(*h) == self.values(),
    {
        &self.inner
    }
}

impl Default for LatencyHistogram {
    fn default() -> (h: LatencyHistogram)
        ensures
            h.values() =~= Multiset::empty(),
    {
        LatencyHistogram::new()
    }
}

} // verus!
