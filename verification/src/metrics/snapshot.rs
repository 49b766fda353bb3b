//! Latency summaries of a run.

use vstd::prelude::*;
use crate::time::{Duration, MAX_NANOS};

verus! {

/// The latency distribution of a run: extremes, mean, spread and
/// percentiles.
#[derive(Debug, Clone, Copy, PartialEq, Eq, Structural)]
pub struct LatencySnapshot {
    pub min: Duration,
    pub max: Duration,
    pub mean: Duration,
    pub stddev: Duration,
    pub p50: Duration,
    pub p75: Duration,
    pub p90: Duration,
    pub p95: Duration,
    pub p99: Duration,
    pub p999: Duration,
}

impl LatencySnapshot {
    /// The snapshot whose every figure is zero.
    pub open spec fn zeroed_spec() -> LatencySnapshot {
        let z = Duration::from_nanos_spec(0);
        LatencySnapshot {
            min: z,
            max: z,
            mean: z,
            stddev: z,
            p50: z,
            p75: z,
            p90: z,
            p95: z,
            p99: z,
            p999: z,
        }
    }

    /// The snapshot of a run without latencies: every figure zero.
    pub fn zeroed() -> (s: LatencySnapshot)
        ensures
            s == LatencySnapshot::zeroed_spec(),
            s.min.nanos() == 0,
            s.max.nanos() == 0,
            s.mean.nanos() == 0,
            s.stddev.nanos() == 0,
            s.p50.nanos() == 0,
            s.p75.nanos() == 0,
            s.p90.nanos() == 0,
            s.p95.nanos() == 0,
            s.p99.nanos() == 0,
            s.p999.nanos() == 0,
    {
        LatencySnapshot {
            min: Duration::zero(),
            max: Duration::zero(),
            mean: Duration::zero(),
            stddev: Duration::zero(),
            p50: Duration::zero(),
            p75: Duration::zero(),
            p90: Duration::zero(),
            p95: Duration::zero(),
            p99: Duration::zero(),
            p999: Duration::zero(),
        }
    }
}

/// The sum of the spans `ds`, in nanoseconds.
pub open spec fn total_nanos(ds: Seq<Duration>) -> nat
    decreases ds.len(),
{
    if ds.len() == 0 {
        0
    } else {
        total_nanos(ds.drop_last()) + ds.last().nanos()
    }
}

/// The count `n` as the `u32` divisor it is cast to: its low 32 bits.
pub open spec fn low32(n: nat) -> nat {
    n % 0x1_0000_0000
}

/// The mean of the spans `ds`, in nanoseconds, rounded down; zero for no
/// spans. As in the tool, the count is cast to `u32` before dividing.
pub open spec fn mean_nanos(ds: Seq<Duration>) -> nat {
    if ds.len() == 0 {
        0
    } else {
        total_nanos(ds) / low32(ds.len())
    }
}

/// The mean of the spans `ds` (zero for none), rounded down to the
/// nanosecond. The caller shows that the sum fits a duration and that the
/// count is not a multiple of 2^32, as the addition and the division of
/// `std::time::Duration` panic otherwise.
pub fn avg_duration(ds: &Vec<Duration>) -> (d: Duration)
    requires
        total_nanos(ds@) <= MAX_NANOS,
        ds@.len() == 0 || low32(ds@.len()) != 0,
    ensures
        d.nanos() == mean_nanos(ds@),
{
    let n = ds.len();
    let mut sum = Duration::zero();
    let mut count: u64 = 0;
    let mut i: usize = 0;
    while i < n
        invariant
            n == ds@.len(),
            i <= n,
            count == i,
            sum.nanos() == total_nanos(ds@.take(i as int)),
            total_nanos(ds@) <= MAX_NANOS,
        decreases n - i,
    {
        proof {
            lemma_total_nanos_prefix(ds@, i as int + 1);
            assert(ds@.take(i + 1).drop_last() =~= ds@.take(i as int));
        }
        sum = sum.add(&ds[i]);
        count = count + 1;
        i = i + 1;
    }
    assert(ds@.take(n as int) =~= ds@);
    if count == 0 {
        Duration::zero()
    } else {
        let divisor = #[verifier::truncate] (count as u32);
        assert(divisor == count % 0x1_0000_0000) by (bit_vector)
            requires
                divisor == #[verifier::truncate] (count as u32),
        ;
        sum.div_u32(divisor)
    }
}

/// The longest of the spans `ds`, in nanoseconds; zero for none.
pub open spec fn max_nanos(ds: Seq<Duration>) -> nat
    decreases ds.len(),
{
    if ds.len() == 0 {
        0
    } else {
        vstd::math::max(max_nanos(ds.drop_last()) as int, ds.last().nanos() as int) as nat
    }
}

/// The shortest of the spans `ds`, in nanoseconds; zero for none.
pub open spec fn min_nanos(ds: Seq<Duration>) -> nat
    decreases ds.len(),
{
    if ds.len() == 0 {
        0
    } else if ds.len() == 1 {
        ds[0].nanos()
    } else {
        vstd::math::min(min_nanos(ds.drop_last()) as int, ds.last().nanos() as int) as nat
    }
}

/// The longest of the spans `ds`; zero for none.
pub fn max_duration(ds: &Vec<Duration>) -> (d: Duration)
    ensures
        d.nanos() == max_nanos(ds@),
{
    let mut best = Duration::zero();
    let mut i: usize = 0;
    while i < ds.len()
        invariant
            i <= ds@.len(),
            best.nanos() == max_nanos(ds@.take(i as int)),
        decreases ds@.len() - i,
    {
        assert(ds@.take(i + 1).drop_last() =~= ds@.take(i as int));
        if best.lt(&ds[i]) {
            best = ds[i];
        }
        i = i + 1;
    }
    assert(ds@.take(ds@.len() as int) =~= ds@);
    best
}

/// The shortest of the spans `ds`; zero for none.
pub fn min_duration(ds: &Vec<Duration>) -> (d: Duration)
    ensures
        d.nanos() == min_nanos(ds@),
{
    if ds.len() == 0 {
        return Duration::zero();
    }
    let mut best = ds[0];
    let mut i: usize = 1;
    assert(ds@.take(1) =~= seq![ds@[0]]);
    while i < ds.len()
        invariant
            1 <= i <= ds@.len(),
            best.nanos() == min_nanos(ds@.take(i as int)),
        decreases ds@.len() - i,
    {
        assert(ds@.take(i + 1).drop_last() =~= ds@.take(i as int));
        if ds[i].lt(&best) {
            best = ds[i];
        }
        i = i + 1;
    }
    assert(ds@.take(ds@.len() as int) =~= ds@);
    best
}

/// The latency figures of one closed window.
#[derive(Debug, Clone, Copy)]
pub struct WindowLatency {
    pub p50: Duration,
    pub p90: Duration,
    pub p99: Duration,
    pub mean: Duration,
    pub ttfb_p99: Option<Duration>,
}

/// The medians of the windows `ws`.
pub open spec fn p50s(ws: Seq<WindowLatency>) -> Seq<Duration> {
    ws.map_values(|w: WindowLatency| w.p50)
}

/// The 90th percentiles of the windows `ws`.
pub open spec fn p90s(ws: Seq<WindowLatency>) -> Seq<Duration> {
    ws.map_values(|w: WindowLatency| w.p90)
}

/// The 99th percentiles of the windows `ws`.
pub open spec fn p99s(ws: Seq<WindowLatency>) -> Seq<Duration> {
    ws.map_values(|w: WindowLatency| w.p99)
}

/// The means of the windows `ws`.
pub open spec fn means(ws: Seq<WindowLatency>) -> Seq<Duration> {
    ws.map_values(|w: WindowLatency| w.mean)
}

/// The 99th percentile times to first byte of the windows `ws` that have one.
pub open spec fn ttfb_p99s(ws: Seq<WindowLatency>) -> Seq<Duration>
    decreases ws.len(),
{
    if ws.len() == 0 {
        Seq::empty()
    } else {
        match ws.last().ttfb_p99 {
            Some(t) => ttfb_p99s(ws.drop_last()).push(t),
            None => ttfb_p99s(ws.drop_last()),
        }
    }
}

/// Whether the spans `ds` can be averaged: their sum fits a duration and
/// their count is not a multiple of 2^32.
pub open spec fn averageable(ds: Seq<Duration>) -> bool {
    &&& total_nanos(ds) <= MAX_NANOS
    &&& (ds.len() == 0 || low32(ds.len()) != 0)
}

fn project(ws: &Vec<WindowLatency>, which: u8) -> (v: Vec<Duration>)
    requires
        which < 4,
    ensures
        which == 0 ==> v@ == p50s(ws@),
        which == 1 ==> v@ == p90s(ws@),
        which == 2 ==> v@ == p99s(ws@),
        which == 3 ==> v@ == means(ws@),
{
    let mut v: Vec<Duration> = Vec::new();
    let mut i: usize = 0;
    while i < ws.len()
        invariant
            which < 4,
            i <= ws@.len(),
            v@.len() == i,
            forall|j: int|
                0 <= j < i ==> #[trigger] v@[j] == if which == 0 {
                    ws@[j].p50
                } else if which == 1 {
                    ws@[j].p90
                } else if which == 2 {
                    ws@[j].p99
                } else {
                    ws@[j].mean
                },
        decreases ws@.len() - i,
    {
        let w = &ws[i];
        let d = if which == 0 {
            w.p50
        } else if which == 1 {
            w.p90
        } else if which == 2 {
            w.p99
        } else {
            w.mean
        };
        v.push(d);
        i = i + 1;
    }
    proof {
        if which == 0 {
            assert(v@ =~= p50s(ws@));
        } else if which == 1 {
            assert(v@ =~= p90s(ws@));
        } else if which == 2 {
            assert(v@ =~= p99s(ws@));
        } else {
            assert(v@ =~= means(ws@));
        }
    }
    v
}

fn ttfb_values(ws: &Vec<WindowLatency>) -> (v: Vec<Duration>)
    ensures
        v@ == ttfb_p99s(ws@),
{
    let mut v: Vec<Duration> = Vec::new();
    let mut i: usize = 0;
    while i < ws.len()
        invariant
            i <= ws@.len(),
            v@ == ttfb_p99s(ws@.take(i as int)),
        decreases ws@.len() - i,
    {
        assert(ws@.take(i + 1).drop_last() =~= ws@.take(i as int));
        if let Some(t) = ws[i].ttfb_p99 {
            v.push(t);
        }
        i = i + 1;
    }
    assert(ws@.take(ws@.len() as int) =~= ws@);
    v
}

impl LatencySnapshot {
    /// The run's latency as the closed windows give it: zero for no windows;
    /// otherwise the mean over the windows of their medians (as `p50`), of
    /// their 90th percentiles (as `p75` and `p90`), of their 99th
    /// percentiles (as `p95`, `p99` and `p999`) and of their means, the
    /// largest 99th percentile as `max`, the smallest median as `min`, and
    /// no spread.
    pub fn from_windows(ws: &Vec<WindowLatency>) -> (s: LatencySnapshot)
        requires
            averageable(p50s(ws@)),
            averageable(p90s(ws@)),
            averageable(p99s(ws@)),
            averageable(means(ws@)),
        ensures
            ws@.len() == 0 ==> s == LatencySnapshot::zeroed_spec(),
            ws@.len() > 0 ==> {
                &&& s.min.nanos() == min_nanos(p50s(ws@))
                &&& s.max.nanos() == max_nanos(p99s(ws@))
                &&& s.mean.nanos() == mean_nanos(means(ws@))
                &&& s.stddev.nanos() == 0
                &&& s.p50.nanos() == mean_nanos(p50s(ws@))
                &&& s.p75.nanos() == mean_nanos(p90s(ws@))
                &&& s.p90.nanos() == mean_nanos(p90s(ws@))
                &&& s.p95.nanos() == mean_nanos(p99s(ws@))
                &&& s.p99.nanos() == mean_nanos(p99s(ws@))
                &&& s.p999.nanos() == mean_nanos(p99s(ws@))
            },
            ws@.len() > 0 ==> {
                &&& s.mean.nanos() == mean_nanos(ws@.map_values(|w: WindowLatency| w.mean))
                &&& s.p50.nanos() == mean_nanos(ws@.map_values(|w: WindowLatency| w.p50))
                &&& s.p75.nanos() == mean_nanos(ws@.map_values(|w: WindowLatency| w.p90))
                &&& s.p90.nanos() == mean_nanos(ws@.map_values(|w: WindowLatency| w.p90))
                &&& s.p95.nanos() == mean_nanos(ws@.map_values(|w: WindowLatency| w.p99))
                &&& s.p99.nanos() == mean_nanos(ws@.map_values(|w: WindowLatency| w.p99))
                &&& s.p999.nanos() == mean_nanos(ws@.map_values(|w: WindowLatency| w.p99))
                &&& s.min.nanos() == min_nanos(ws@.map_values(|w: WindowLatency| w.p50))
                &&& s.max.nanos() == max_nanos(ws@.map_values(|w: WindowLatency| w.p99))
            },
    {
        if ws.len() == 0 {
            return LatencySnapshot::zeroed();
        }
        proof {
            assert(means(ws@) =~= ws@.map_values(|w: WindowLatency| w.mean));
            assert(p50s(ws@) =~= ws@.map_values(|w: WindowLatency| w.p50));
            assert(p90s(ws@) =~= ws@.map_values(|w: WindowLatency| w.p90));
            assert(p99s(ws@) =~= ws@.map_values(|w: WindowLatency| w.p99));
        }
        let p50 = project(ws, 0);
        let p90 = project(ws, 1);
        let p99 = project(ws, 2);
        let mean = project(ws, 3);
        let p50_avg = avg_duration(&p50);
        let p90_avg = avg_duration(&p90);
        let p99_avg = avg_duration(&p99);
        LatencySnapshot {
            min: min_duration(&p50),
            max: max_duration(&p99),
            mean: avg_duration(&mean),
            stddev: Duration::zero(),
            p50: p50_avg,
            p75: p90_avg,
            p90: p90_avg,
            p95: p99_avg,
            p99: p99_avg,
            p999: p99_avg,
        }
    }

    /// The run's time to first byte as the closed windows give it: `None`
    /// when no window has one; otherwise every figure is the mean of the
    /// windows' 99th percentiles, but `max`, their largest, and no spread.
    pub fn ttfb_from_windows(ws: &Vec<WindowLatency>) -> (s: Option<LatencySnapshot>)
        requires
            averageable(ttfb_p99s(ws@)),
        ensures
            ttfb_p99s(ws@).len() == 0 ==> s is None,
            ttfb_p99s(ws@).len() > 0 ==> (s matches Some(t) && {
                let avg = mean_nanos(ttfb_p99s(ws@));
                &&& t.min.nanos() == avg
                &&& t.max.nanos() == max_nanos(ttfb_p99s(ws@))
                &&& t.mean.nanos() == avg
                &&& t.stddev.nanos() == 0
                &&& t.p50.nanos() == avg
                &&& t.p75.nanos() == avg
                &&& t.p90.nanos() == avg
                &&& t.p95.nanos() == avg
                &&& t.p99.nanos() == avg
                &&& t.p999.nanos() == avg
            }),
    {
        let v = ttfb_values(ws);
        if v.len() == 0 {
            return None;
        }
        let avg = avg_duration(&v);
        Some(
            LatencySnapshot {
                min: avg,
                max: max_duration(&v),
                mean: avg,
                stddev: Duration::zero(),
                p50: avg,
                p75: avg,
                p90: avg,
                p95: avg,
                p99: avg,
                p999: avg,
            },
        )
    }
}

/// The sum of `n` spans of `m` nanoseconds each is `n * m`.
proof fn lemma_total_of_equal_spans(ds: Seq<Duration>, m: nat)
    requires
        forall|i: int| 0 <= i < ds.len() ==> #[trigger] ds[i].nanos() == m,
    ensures
        total_nanos(ds) == ds.len() * m,
    decreases ds.len(),
{
    if ds.len() > 0 {
        let init = ds.drop_last();
        assert forall|i: int| 0 <= i < init.len() implies #[trigger] init[i].nanos() == m by {
            assert(init[i] == ds[i]);
        }
        lemma_total_of_equal_spans(init, m);
        assert(total_nanos(ds) == (ds.len() - 1) * m + m);
        assert((ds.len() - 1) * m + m == ds.len() * m) by (nonlinear_arith);
    }
}

/// Windows that all have the same mean latency average to that mean: the
/// run's mean over windows whose own means are all `m` is `m`, whatever
/// their other figures (for fewer than 2^32 windows, as the count is cast
/// to `u32`).
pub proof fn law_equal_window_means_average_to_themselves(ws: Seq<WindowLatency>, m: Duration)
    requires
        0 < ws.len() < 0x1_0000_0000,
        forall|i: int| 0 <= i < ws.len() ==> #[trigger] ws[i].mean == m,
    ensures
        mean_nanos(ws.map_values(|w: WindowLatency| w.mean)) == m.nanos(),
{
    let ds = ws.map_values(|w: WindowLatency| w.mean);
    assert forall|i: int| 0 <= i < ds.len() implies #[trigger] ds[i].nanos() == m.nanos() by {
        assert(ds[i] == ws[i].mean);
    }
    lemma_total_of_equal_spans(ds, m.nanos());
    let n = ds.len();
    assert(low32(n) == n);
    assert((n * m.nanos()) / n == m.nanos()) by (nonlinear_arith)
        requires
            n > 0,
    ;
}

/// A prefix's sum is no more than the whole.
pub proof fn lemma_total_nanos_prefix(ds: Seq<Duration>, k: int)
    requires
        0 <= k <= ds.len(),
    ensures
        total_nanos(ds.take(k)) <= total_nanos(ds),
    decreases ds.len() - k,
{
    if k < ds.len() {
        lemma_total_nanos_prefix(ds, k + 1);
        assert(ds.take(k + 1).drop_last() =~= ds.take(k));
    } else {
        assert(ds.take(k) =~= ds);
    }
}

} // verus!
