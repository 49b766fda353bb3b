//! Totals of a run over its closed windows, and the windows whose tail
//! latency spiked.

use vstd::prelude::*;
use vstd::relations::{sorted_by, total_ordering};
use crate::time::{Duration, MAX_NANOS};
use crate::metrics::snapshot::{max_nanos, max_duration};

verus! {

broadcast use vstd::seq_lib::group_to_multiset_ensures;

/// Spans ordered by their length.
pub open spec fn by_length() -> spec_fn(Duration, Duration) -> bool {
    |a: Duration, b: Duration| a.nanos() <= b.nanos()
}

/// Ordering spans by length is a total order.
pub proof fn lemma_by_length_total()
    ensures
        total_ordering(by_length()),
{
    assert forall|a: Duration, b: Duration|
        #[trigger] by_length()(a, b) && #[trigger] by_length()(b, a) implies a == b by {
        Duration::lemma_same_nanos(a, b);
    }
}

/// The spans `ds` from shortest to longest.
pub open spec fn sorted_spans(ds: Seq<Duration>) -> Seq<Duration> {
    ds.sort_by(by_length())
}

/// The spans `ds` sorted from shortest to longest, by insertion.
pub fn sort_spans(ds: &Vec<Duration>) -> (s: Vec<Duration>)
    ensures
        s@ == sorted_spans(ds@),
{
    let mut out: Vec<Duration> = Vec::new();
    let mut i: usize = 0;
    while i < ds.len()
        invariant
            i <= ds@.len(),
            sorted_by(out@, by_length()),
            out@.to_multiset() == ds@.take(i as int).to_multiset(),
        decreases ds@.len() - i,
    {
        let d = ds[i];
        let mut pos: usize = 0;
        while pos < out.len() && out[pos].le(&d)
            invariant
                pos <= out@.len(),
                forall|j: int| 0 <= j < pos ==> (#[trigger] out@[j]).nanos() <= d.nanos(),
            decreases out@.len() - pos,
        {
            pos = pos + 1;
        }
        let ghost before = out@;
        out.insert(pos, d);
        proof {
            assert forall|a: int, b: int| 0 <= a < b < out@.len() implies #[trigger] by_length()(
                out@[a],
                out@[b],
            ) by {
                if b < pos {
                    assert(by_length()(before[a], before[b]));
                } else if a > pos {
                    assert(by_length()(before[a - 1], before[b - 1]));
                } else if a == pos {
                    assert(by_length()(before[pos as int], before[b - 1]));
                } else {
                    assert(before[a].nanos() <= d.nanos());
                    if b > pos {
                        assert(by_length()(before[a], before[b - 1]));
                    }
                }
            }
            assert(ds@.take(i + 1) =~= ds@.take(i as int).push(d));
        }
        i = i + 1;
    }
    proof {
        assert(ds@.take(ds@.len() as int) =~= ds@);
        lemma_by_length_total();
        ds@.lemma_sort_by_ensures(by_length());
        vstd::seq_lib::lemma_sorted_unique(out@, sorted_spans(ds@), by_length());
    }
    out
}

/// The middle span of `ds` by length: the one at index `len / 2` once they
/// are sorted (the upper middle for an even count).
pub open spec fn median_span(ds: Seq<Duration>) -> Duration {
    sorted_spans(ds)[ds.len() as int / 2]
}

/// How many of the spans `ds` are longer than `limit` nanoseconds.
pub open spec fn count_longer(ds: Seq<Duration>, limit: nat) -> nat
    decreases ds.len(),
{
    if ds.len() == 0 {
        0
    } else {
        count_longer(ds.drop_last(), limit) + if ds.last().nanos() > limit {
            1nat
        } else {
            0nat
        }
    }
}

/// Removing one span changes the count of longer spans by that span alone.
proof fn lemma_count_longer_remove(ds: Seq<Duration>, j: int, limit: nat)
    requires
        0 <= j < ds.len(),
    ensures
        count_longer(ds, limit) == count_longer(ds.remove(j), limit) + if ds[j].nanos() > limit {
            1nat
        } else {
            0nat
        },
    decreases ds.len(),
{
    if j == ds.len() - 1 {
        assert(ds.remove(j) =~= ds.drop_last());
    } else {
        lemma_count_longer_remove(ds.drop_last(), j, limit);
        assert(ds.remove(j).drop_last() =~= ds.drop_last().remove(j));
        assert(ds.remove(j).last() == ds.last());
    }
}

/// The count of longer spans depends only on which spans there are, not
/// on their order.
proof fn lemma_count_longer_permutation(a: Seq<Duration>, b: Seq<Duration>, limit: nat)
    requires
        a.to_multiset() == b.to_multiset(),
    ensures
        count_longer(a, limit) == count_longer(b, limit),
    decreases a.len(),
{
    broadcast use vstd::multiset::group_multiset_axioms;

    vstd::seq_lib::to_multiset_len(a);
    vstd::seq_lib::to_multiset_len(b);
    if a.len() > 0 {
        let x = a.last();
        assert(a.drop_last().push(x) =~= a);
        vstd::seq_lib::to_multiset_build(a.drop_last(), x);
        assert(b.to_multiset().contains(x));
        vstd::seq_lib::to_multiset_contains(b, x);
        let j = choose|j: int| 0 <= j < b.len() && b[j] == x;
        vstd::seq_lib::to_multiset_remove(b, j);
        assert(a.drop_last().to_multiset() =~= b.remove(j).to_multiset());
        lemma_count_longer_permutation(a.drop_last(), b.remove(j), limit);
        lemma_count_longer_remove(b, j, limit);
    }
}

/// At most the spans past the first `k` can be longer than `limit` where
/// those first `k` are not.
proof fn lemma_count_longer_tail(ds: Seq<Duration>, k: int, limit: nat)
    requires
        0 <= k <= ds.len(),
        forall|i: int| 0 <= i < k ==> (#[trigger] ds[i]).nanos() <= limit,
    ensures
        count_longer(ds, limit) <= ds.len() - k,
    decreases ds.len(),
{
    if ds.len() > k {
        lemma_count_longer_tail(ds.drop_last(), k, limit);
    } else if ds.len() > 0 {
        lemma_count_longer_tail(ds.drop_last(), k - 1, limit);
    }
}

/// Spikes are the exception: fewer than half of the windows (at most
/// `len - len / 2 - 1`) can have a 99th percentile above twice the median
/// one, since every window up to the median is at or below it.
pub proof fn lemma_spikes_are_a_minority(p99s: Seq<Duration>)
    requires
        p99s.len() > 0,
    ensures
        count_longer(p99s, 2 * median_span(p99s).nanos()) <= p99s.len() - p99s.len() / 2 - 1,
{
    let sorted = sorted_spans(p99s);
    let h: int = p99s.len() as int / 2;
    let limit = 2 * median_span(p99s).nanos();
    lemma_by_length_total();
    p99s.lemma_sort_by_ensures(by_length());
    vstd::seq_lib::to_multiset_len(p99s);
    vstd::seq_lib::to_multiset_len(sorted);
    assert forall|i: int| 0 <= i < h + 1 implies (#[trigger] sorted[i]).nanos() <= limit by {
        if i < h {
            assert(by_length()(sorted[i], sorted[h]));
        }
    }
    lemma_count_longer_tail(sorted, h + 1, limit);
    lemma_count_longer_permutation(p99s, sorted, limit);
}

/// The sum of the counts `s`.
pub open spec fn total(s: Seq<u64>) -> nat
    decreases s.len(),
{
    if s.len() == 0 {
        0
    } else {
        total(s.drop_last()) + s.last() as nat
    }
}

/// The sum of the counts `v`; the caller shows that it fits in a `u64`
/// (summing `u64`s panics on overflow).
pub fn sum_counts(v: &Vec<u64>) -> (t: u64)
    requires
        total(v@) <= u64::MAX,
    ensures
        t == total(v@),
{
    let mut t: u64 = 0;
    let mut i: usize = 0;
    while i < v.len()
        invariant
            i <= v@.len(),
            t == total(v@.take(i as int)),
            total(v@) <= u64::MAX,
        decreases v@.len() - i,
    {
        assert(v@.take(i + 1).drop_last() =~= v@.take(i as int));
        proof {
            lemma_total_prefix(v@, i + 1);
        }
        t = t + v[i];
        i = i + 1;
    }
    assert(v@.take(v@.len() as int) =~= v@);
    t
}

/// A prefix's sum is no more than the whole.
proof fn lemma_total_prefix(s: Seq<u64>, k: int)
    requires
        0 <= k <= s.len(),
    ensures
        total(s.take(k)) <= total(s),
    decreases s.len() - k,
{
    if k < s.len() {
        lemma_total_prefix(s, k + 1);
        assert(s.take(k + 1).drop_last() =~= s.take(k));
    } else {
        assert(s.take(k) =~= s);
    }
}

/// The twice-the-median threshold above which a window's 99th percentile
/// counts as a spike; the caller shows that it fits a duration.
pub fn spike_threshold(p99s: &Vec<Duration>) -> (t: Duration)
    requires
        p99s@.len() > 0,
        2 * median_span(p99s@).nanos() <= MAX_NANOS,
    ensures
        t.nanos() == 2 * median_span(p99s@).nanos(),
{
    let sorted = sort_spans(p99s);
    proof {
        lemma_by_length_total();
        p99s@.lemma_sort_by_ensures(by_length());
        vstd::seq_lib::to_multiset_len(p99s@);
        vstd::seq_lib::to_multiset_len(sorted@);
    }
    let median = sorted[sorted.len() / 2];
    median.mul_u32(2)
}

/// How many of the spans `ds` are longer than `threshold`.
pub fn count_spikes(ds: &Vec<Duration>, threshold: Duration) -> (n: usize)
    ensures
        n == count_longer(ds@, threshold.nanos()),
{
    let mut n: usize = 0;
    let mut i: usize = 0;
    while i < ds.len()
        invariant
            i <= ds@.len(),
            n == count_longer(ds@.take(i as int), threshold.nanos()),
            n <= i,
        decreases ds@.len() - i,
    {
        assert(ds@.take(i + 1).drop_last() =~= ds@.take(i as int));
        if threshold.lt(&ds[i]) {
            n = n + 1;
        }
        i = i + 1;
    }
    assert(ds@.take(ds@.len() as int) =~= ds@);
    n
}

/// The counts of one closed window that a run's summary adds up.
#[derive(Debug, Clone, Copy)]
pub struct WindowCounts {
    pub request_count: u64,
    pub error_count: u64,
    pub bytes_received: u64,
    pub p99: Duration,
}

/// The requests of each window.
pub open spec fn requests_of(ws: Seq<WindowCounts>) -> Seq<u64> {
    ws.map_values(|w: WindowCounts| w.request_count)
}

/// The errors of each window.
pub open spec fn errors_of(ws: Seq<WindowCounts>) -> Seq<u64> {
    ws.map_values(|w: WindowCounts| w.error_count)
}

/// The bytes received in each window.
pub open spec fn bytes_of(ws: Seq<WindowCounts>) -> Seq<u64> {
    ws.map_values(|w: WindowCounts| w.bytes_received)
}

/// The 99th percentile of each window.
pub open spec fn p99s_of(ws: Seq<WindowCounts>) -> Seq<Duration> {
    ws.map_values(|w: WindowCounts| w.p99)
}

/// Whether the windows `ws` can be summarised without overflow: their
/// totals fit in a `u64` and twice their median 99th percentile fits a
/// duration.
pub open spec fn summable(ws: Seq<WindowCounts>) -> bool {
    &&& total(requests_of(ws)) <= u64::MAX
    &&& total(errors_of(ws)) <= u64::MAX
    &&& total(bytes_of(ws)) <= u64::MAX
    &&& ws.len() > 0 ==> 2 * median_span(p99s_of(ws)).nanos() <= MAX_NANOS
}

/// The whole-number figures of a run's summary.
#[derive(Debug, Clone, Copy)]
pub struct RunCounts {
    pub window_count: usize,
    pub total_requests: u64,
    pub total_errors: u64,
    pub total_bytes: u64,
    pub peak_p99: Duration,
    pub spike_count: usize,
    pub spike_threshold: Duration,
}

fn column(ws: &Vec<WindowCounts>, which: u8) -> (v: Vec<u64>)
    requires
        which < 3,
    ensures
        which == 0 ==> v@ == requests_of(ws@),
        which == 1 ==> v@ == errors_of(ws@),
        which == 2 ==> v@ == bytes_of(ws@),
{
    let mut v: Vec<u64> = Vec::new();
    let mut i: usize = 0;
    while i < ws.len()
        invariant
            which < 3,
            i <= ws@.len(),
            v@.len() == i,
            forall|j: int|
                0 <= j < i ==> #[trigger] v@[j] == if which == 0 {
                    ws@[j].request_count
                } else if which == 1 {
                    ws@[j].error_count
                } else {
                    ws@[j].bytes_received
                },
        decreases ws@.len() - i,
    {
        let w = &ws[i];
        let c = if which == 0 {
            w.request_count
        } else if which == 1 {
            w.error_count
        } else {
            w.bytes_received
        };
        v.push(c);
        i = i + 1;
    }
    proof {
        if which == 0 {
            assert(v@ =~= requests_of(ws@));
        } else if which == 1 {
            assert(v@ =~= errors_of(ws@));
        } else {
            assert(v@ =~= bytes_of(ws@));
        }
    }
    v
}

fn p99_column(ws: &Vec<WindowCounts>) -> (v: Vec<Duration>)
    ensures
        v@ == p99s_of(ws@),
{
    let mut v: Vec<Duration> = Vec::new();
    let mut i: usize = 0;
    while i < ws.len()
        invariant
            i <= ws@.len(),
            v@.len() == i,
            forall|j: int| 0 <= j < i ==> #[trigger] v@[j] == ws@[j].p99,
        decreases ws@.len() - i,
    {
        v.push(ws[i].p99);
        i = i + 1;
    }
    assert(v@ =~= p99s_of(ws@));
    v
}

/// The whole-number summary of a run over its closed windows: all zero for
/// no windows; otherwise the number of windows, the totals of requests,
/// errors and bytes, the largest 99th percentile, and the windows whose
/// 99th percentile is more than twice the median one (the spike threshold).
pub fn summarize_counts(ws: &Vec<WindowCounts>) -> (r: RunCounts)
    requires
        summable(ws@),
    ensures
        r.window_count == ws@.len(),
        r.total_requests == total(requests_of(ws@)),
        r.total_errors == total(errors_of(ws@)),
        r.total_bytes == total(bytes_of(ws@)),
        r.peak_p99.nanos() == max_nanos(p99s_of(ws@)),
        ws@.len() == 0 ==> r.spike_count == 0 && r.spike_threshold.nanos() == 0,
        ws@.len() > 0 ==> r.spike_threshold.nanos() == 2 * median_span(p99s_of(ws@)).nanos(),
        ws@.len() > 0 ==> r.spike_count == count_longer(p99s_of(ws@), r.spike_threshold.nanos()),
{
    if ws.len() == 0 {
        assert(requests_of(ws@) =~= Seq::<u64>::empty());
        assert(errors_of(ws@) =~= Seq::<u64>::empty());
        assert(bytes_of(ws@) =~= Seq::<u64>::empty());
        assert(p99s_of(ws@) =~= Seq::<Duration>::empty());
        return RunCounts {
            window_count: 0,
            total_requests: 0,
            total_errors: 0,
            total_bytes: 0,
            peak_p99: Duration::zero(),
            spike_count: 0,
            spike_threshold: Duration::zero(),
        };
    }
    let requests = column(ws, 0);
    let errors = column(ws, 1);
    let bytes = column(ws, 2);
    let p99s = p99_column(ws);
    let threshold = spike_threshold(&p99s);
    RunCounts {
        window_count: ws.len(),
        total_requests: sum_counts(&requests),
        total_errors: sum_counts(&errors),
        total_bytes: sum_counts(&bytes),
        peak_p99: max_duration(&p99s),
        spike_count: count_spikes(&p99s, threshold),
        spike_threshold: threshold,
    }
}

} // verus!
