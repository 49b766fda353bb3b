//! Per-worker metrics, and the counters shared for the live progress view.

use vstd::prelude::*;
use vstd::multiset::Multiset;
use std::collections::HashMap;
use std::sync::Arc;
use std::sync::atomic::{AtomicU64, Ordering};
use crate::http::timing::{HttpProtocol, RequestTiming, span_between};
use crate::metrics::histogram::{LatencyHistogram, tracked_nanos};
use crate::time::Duration;

verus! {

broadcast use vstd::std_specs::hash::group_hash_axioms, vstd::multiset::group_multiset_axioms;

/// The count of `status` in `m`, zero where it is absent.
pub open spec fn count_of(m: Map<u16, u64>, status: u16) -> int {
    if m.contains_key(status) {
        m[status] as int
    } else {
        0
    }
}

/// The status counts of `a` and `b` added up, status by status.
pub open spec fn merged_counts(a: Map<u16, u64>, b: Map<u16, u64>) -> Map<u16, u64> {
    Map::new(
        |k: u16| a.contains_key(k) || b.contains_key(k),
        |k: u16| (count_of(a, k) + count_of(b, k)) as u64,
    )
}

/// Whether the status counts of `a` and `b` can be added without overflow.
pub open spec fn counts_fit(a: Map<u16, u64>, b: Map<u16, u64>) -> bool {
    forall|k: u16| count_of(a, k) + count_of(b, k) <= u64::MAX
}

/// Adds the status counts of `from` into `into`, status by status.
pub fn merge_status_counts(into: &mut HashMap<u16, u64>, from: &HashMap<u16, u64>)
    requires
        counts_fit(old(into)@, from@),
    ensures
        final(into)@ == merged_counts(old(into)@, from@),
{
    let ghost start = into@;
    let ghost fm = from@;
    let ghost entries = vstd::std_specs::iter::IteratorSpec::remaining(&vstd::std_specs::hash::spec_hash_map_iter(from));
    for e in it: from.iter()
        invariant
            fm == from@,
            it.seq() == entries,
            counts_fit(start, fm),
            forall|k: u16|
                #[trigger] into@.contains_key(k) <==> (start.contains_key(k) || exists|j: int|
                    0 <= j < it.index() && *it.seq()[j].0 == k),
            forall|k: u16|
                #[trigger] count_of(into@, k) == count_of(start, k) + if exists|j: int|
                    0 <= j < it.index() && *it.seq()[j].0 == k {
                    count_of(fm, k)
                } else {
                    0
                },
            it.seq().len() == fm.dom().len(),
            it.seq().no_duplicates(),
            forall|i: int|
                0 <= i < it.seq().len() ==> fm.contains_key(*it.seq()[i].0) && fm[*it.seq()[i].0]
                    == *it.seq()[i].1,
            forall|k: u16| #[trigger] fm.contains_key(k) ==> it.seq().contains((&k, &fm[k])),
    {
        let (k, v) = e;
        let ghost idx = it.index();
        proof {
            assert(*it.seq()[idx].0 == *k);
            if exists|j: int| 0 <= j < idx && *it.seq()[j].0 == *k {
                let j = choose|j: int| 0 <= j < idx && *it.seq()[j].0 == *k;
                assert(it.seq()[j] == it.seq()[idx]);
            }
            assert(count_of(into@, *k) == count_of(start, *k));
            assert(count_of(fm, *k) == *v);
            assert(count_of(start, *k) + count_of(fm, *k) <= u64::MAX);
        }
        let current: u64 = match into.get(k) {
            Some(c) => *c,
            None => 0,
        };
        let ghost before = into@;
        into.insert(*k, current + *v);
        proof {
            assert forall|q: u16| #[trigger] into@.contains_key(q) <==> (start.contains_key(q)
                || exists|j: int| 0 <= j < idx + 1 && *it.seq()[j].0 == q) by {
                if q == *k {
                    assert(*it.seq()[idx].0 == q);
                } else if exists|j: int| 0 <= j < idx + 1 && *it.seq()[j].0 == q {
                    let j = choose|j: int| 0 <= j < idx + 1 && *it.seq()[j].0 == q;
                    assert(j < idx);
                }
            }
            assert forall|q: u16| #[trigger] count_of(into@, q) == count_of(start, q) + if exists|
                j: int,
            | 0 <= j < idx + 1 && *it.seq()[j].0 == q {
                count_of(fm, q)
            } else {
                0
            } by {
                if q == *k {
                    assert(*it.seq()[idx].0 == q);
                    assert(count_of(before, q) == current);
                } else {
                    assert(count_of(into@, q) == count_of(before, q));
                    if exists|j: int| 0 <= j < idx + 1 && *it.seq()[j].0 == q {
                        let j = choose|j: int| 0 <= j < idx + 1 && *it.seq()[j].0 == q;
                        assert(j < idx);
                    }
                }
            }
        }
    }
    proof {
        assert forall|k: u16| fm.contains_key(k) implies exists|j: int|
            0 <= j < entries.len() && *entries[j].0 == k by {
            assert(entries.contains((&k, &fm[k])));
            let j = choose|j: int| 0 <= j < entries.len() && entries[j] == (&k, &fm[k]);
            assert(*entries[j].0 == k);
        }
        assert forall|k: u16| #[trigger] into@.contains_key(k) implies into@[k] == merged_counts(
            start,
            fm,
        )[k] by {
            assert(count_of(into@, k) == into@[k]);
        }
        assert(into@ =~= merged_counts(start, fm));
    }
}

/// What one worker measured.
pub struct WorkerMetrics {
    pub histogram: LatencyHistogram,
    pub ttfb_histogram: LatencyHistogram,
    pub transfer_histogram: LatencyHistogram,
    pub scheduler_delay_histogram: LatencyHistogram,
    pub success_count: u64,
    pub error_count: u64,
    pub status_counts: HashMap<u16, u64>,
    pub bytes_received: u64,
    pub new_connections: u64,
    pub http2_count: u64,
    pub http1_count: u64,
}

/// Every request a worker counted, succeeded or failed, has its latency in
/// the latency histogram.
pub open spec fn all_requests_timed(m: WorkerMetrics) -> bool {
    m.histogram.values().len() == m.success_count + m.error_count
}

impl WorkerMetrics {
    /// Nothing measured yet.
    pub fn new() -> (m: WorkerMetrics)
        ensures
            all_requests_timed(m),
            m.histogram.values() =~= Multiset::empty(),
            m.ttfb_histogram.values() =~= Multiset::empty(),
            m.transfer_histogram.values() =~= Multiset::empty(),
            m.scheduler_delay_histogram.values() =~= Multiset::empty(),
            m.success_count == 0,
            m.error_count == 0,
            m.status_counts@ == Map::<u16, u64>::empty(),
            m.bytes_received == 0,
            m.new_connections == 0,
            m.http2_count == 0,
            m.http1_count == 0,
    {
        WorkerMetrics {
            histogram: LatencyHistogram::new(),
            ttfb_histogram: LatencyHistogram::new(),
            transfer_histogram: LatencyHistogram::new(),
            scheduler_delay_histogram: LatencyHistogram::new(),
            success_count: 0,
            error_count: 0,
            status_counts: HashMap::new(),
            bytes_received: 0,
            new_connections: 0,
            http2_count: 0,
            http1_count: 0,
        }
    }

    /// Counts a successful request: its latency, one success, one more
    /// response with `status`, and its bytes.
    pub fn record_success(&mut self, latency: Duration, status: u16, bytes: u64)
        requires
            old(self).success_count < u64::MAX,
            count_of(old(self).status_counts@, status) < u64::MAX,
            old(self).bytes_received + bytes <= u64::MAX,
        ensures
            all_requests_timed(*old(self)) ==> all_requests_timed(*final(self)),
            final(self).histogram.values() == old(self).histogram.values().insert(
                tracked_nanos(latency.nanos()),
            ),
            final(self).success_count == old(self).success_count + 1,
            final(self).status_counts@ == old(self).status_counts@.insert(
                status,
                (count_of(old(self).status_counts@, status) + 1) as u64,
            ),
            final(self).bytes_received == old(self).bytes_received + bytes,
            final(self).error_count == old(self).error_count,
            final(self).ttfb_histogram.values() == old(self).ttfb_histogram.values(),
            final(self).transfer_histogram.values() == old(self).transfer_histogram.values(),
            final(self).scheduler_delay_histogram.values()
                == old(self).scheduler_delay_histogram.values(),
            final(self).new_connections == old(self).new_connections,
            final(self).http2_count == old(self).http2_count,
            final(self).http1_count == old(self).http1_count,
    {
        self.histogram.record(latency);
        self.success_count = self.success_count + 1;
        let current: u64 = match self.status_counts.get(&status) {
            Some(c) => *c,
            None => 0,
        };
        self.status_counts.insert(status, current + 1);
        self.bytes_received = self.bytes_received + bytes;
    }

    /// Counts a failed request: its latency and one error.
    pub fn record_error(&mut self, latency: Duration)
        requires
            old(self).error_count < u64::MAX,
        ensures
            all_requests_timed(*old(self)) ==> all_requests_timed(*final(self)),
            final(self).histogram.values() == old(self).histogram.values().insert(
                tracked_nanos(latency.nanos()),
            ),
            final(self).error_count == old(self).error_count + 1,
            final(self).success_count == old(self).success_count,
            final(self).status_counts@ == old(self).status_counts@,
            final(self).bytes_received == old(self).bytes_received,
            final(self).ttfb_histogram.values() == old(self).ttfb_histogram.values(),
            final(self).transfer_histogram.values() == old(self).transfer_histogram.values(),
            final(self).scheduler_delay_histogram.values()
                == old(self).scheduler_delay_histogram.values(),
            final(self).new_connections == old(self).new_connections,
            final(self).http2_count == old(self).http2_count,
            final(self).http1_count == old(self).http1_count,
    {
        self.histogram.record(latency);
        self.error_count = self.error_count + 1;
    }

    /// Counts the timing breakdown of a request: its time to first byte,
    /// transfer time and scheduler delay where they are known, a new
    /// connection where none was reused, and its HTTP version.
    pub fn record_timing(&mut self, timing: RequestTiming)
        requires
            old(self).new_connections < u64::MAX,
            old(self).http1_count < u64::MAX,
            old(self).http2_count < u64::MAX,
        ensures
            final(self).ttfb_histogram.values() == match span_between(
                timing.send_start,
                timing.first_byte_at,
            ) {
                Some(n) => old(self).ttfb_histogram.values().insert(
                    tracked_nanos(n),
                ),
                None => old(self).ttfb_histogram.values(),
            },
            final(self).transfer_histogram.values() == match span_between(
                timing.first_byte_at,
                timing.last_byte_at,
            ) {
                Some(n) => old(self).transfer_histogram.values().insert(
                    tracked_nanos(n),
                ),
                None => old(self).transfer_histogram.values(),
            },
            final(self).scheduler_delay_histogram.values() == match span_between(
                timing.scheduled_at,
                timing.send_start,
            ) {
                Some(n) => old(self).scheduler_delay_histogram.values().insert(
                    tracked_nanos(n),
                ),
                None => old(self).scheduler_delay_histogram.values(),
            },
            final(self).new_connections == old(self).new_connections + if timing.connection_reused {
                0int
            } else {
                1int
            },
            final(self).http1_count == old(self).http1_count + if timing.protocol
                == HttpProtocol::Http1 {
                1int
            } else {
                0int
            },
            final(self).http2_count == old(self).http2_count + if timing.protocol
                == HttpProtocol::Http2 {
                1int
            } else {
                0int
            },
            final(self).histogram.values() == old(self).histogram.values(),
            final(self).success_count == old(self).success_count,
            final(self).error_count == old(self).error_count,
            final(self).status_counts@ == old(self).status_counts@,
            final(self).bytes_received == old(self).bytes_received,
    {
        if let Some(ttfb) = timing.ttfb() {
            self.ttfb_histogram.record(ttfb);
        }
        if let Some(transfer) = timing.transfer_time() {
            self.transfer_histogram.record(transfer);
        }
        if let Some(delay) = timing.scheduler_delay() {
            self.scheduler_delay_histogram.record(delay);
        }
        if !timing.connection_reused {
            self.new_connections = self.new_connections + 1;
        }
        match timing.protocol {
            HttpProtocol::Http1 => self.http1_count = self.http1_count + 1,
            HttpProtocol::Http2 => self.http2_count = self.http2_count + 1,
            HttpProtocol::Unknown => {},
        }
    }
}

impl WorkerMetrics {
    /// Adds the measurements of `other` to these: its latencies to each
    /// histogram, its counts to each count, status by status. The caller
    /// shows that no count overflows (the tool's additions panic there).
    pub fn merge(&mut self, other: &WorkerMetrics)
        requires
            old(self).success_count + other.success_count <= u64::MAX,
            old(self).error_count + other.error_count <= u64::MAX,
            old(self).bytes_received + other.bytes_received <= u64::MAX,
            old(self).new_connections + other.new_connections <= u64::MAX,
            old(self).http2_count + other.http2_count <= u64::MAX,
            old(self).http1_count + other.http1_count <= u64::MAX,
            counts_fit(old(self).status_counts@, other.status_counts@),
        ensures
            all_requests_timed(*old(self)) && all_requests_timed(*other) ==> all_requests_timed(
                *final(self),
            ),
            final(self).histogram.values() == old(self).histogram.values().add(
                other.histogram.values(),
            ),
            final(self).ttfb_histogram.values() == old(self).ttfb_histogram.values().add(
                other.ttfb_histogram.values(),
            ),
            final(self).transfer_histogram.values() == old(self).transfer_histogram.values().add(
                other.transfer_histogram.values(),
            ),
            final(self).scheduler_delay_histogram.values()
                == old(self).scheduler_delay_histogram.values().add(
                other.scheduler_delay_histogram.values(),
            ),
            final(self).success_count == old(self).success_count + other.success_count,
            final(self).error_count == old(self).error_count + other.error_count,
            final(self).bytes_received == old(self).bytes_received + other.bytes_received,
            final(self).new_connections == old(self).new_connections + other.new_connections,
            final(self).http2_count == old(self).http2_count + other.http2_count,
            final(self).http1_count == old(self).http1_count + other.http1_count,
            final(self).status_counts@ == merged_counts(
                old(self).status_counts@,
                other.status_counts@,
            ),
    {
        self.histogram.merge(&other.histogram);
        self.ttfb_histogram.merge(&other.ttfb_histogram);
        self.transfer_histogram.merge(&other.transfer_histogram);
        self.scheduler_delay_histogram.merge(&other.scheduler_delay_histogram);
        self.success_count = self.success_count + other.success_count;
        self.error_count = self.error_count + other.error_count;
        self.bytes_received = self.bytes_received + other.bytes_received;
        self.new_connections = self.new_connections + other.new_connections;
        self.http2_count = self.http2_count + other.http2_count;
        self.http1_count = self.http1_count + other.http1_count;
        merge_status_counts(&mut self.status_counts, &other.status_counts);
    }
}

/// The sum over the workers `ws` of the count `f` reads from each.
pub open spec fn worker_total(ws: Seq<WorkerMetrics>, f: spec_fn(WorkerMetrics) -> nat) -> nat
    decreases ws.len(),
{
    if ws.len() == 0 {
        0
    } else {
        worker_total(ws.drop_last(), f) + f(ws.last())
    }
}

/// The latencies, taken together, that `f` reads from each of the workers `ws`.
pub open spec fn worker_values(
    ws: Seq<WorkerMetrics>,
    f: spec_fn(WorkerMetrics) -> Multiset<u64>,
) -> Multiset<u64>
    decreases ws.len(),
{
    if ws.len() == 0 {
        Multiset::empty()
    } else {
        worker_values(ws.drop_last(), f).add(f(ws.last()))
    }
}

/// Whether any of the workers `ws` counted responses with `status`.
pub open spec fn status_seen(ws: Seq<WorkerMetrics>, status: u16) -> bool
    decreases ws.len(),
{
    ws.len() > 0 && (status_seen(ws.drop_last(), status) || ws.last().status_counts@.contains_key(
        status,
    ))
}

/// The responses with `status` counted by all the workers `ws`.
pub open spec fn status_total(ws: Seq<WorkerMetrics>, status: u16) -> nat {
    worker_total(ws, |w: WorkerMetrics| count_of(w.status_counts@, status) as nat)
}

/// The status counts of all the workers `ws`, added up status by status.
pub open spec fn all_statuses(ws: Seq<WorkerMetrics>) -> Map<u16, u64> {
    Map::new(|k: u16| status_seen(ws, k), |k: u16| status_total(ws, k) as u64)
}

/// The successes of all the workers `ws`.
pub open spec fn total_successes(ws: Seq<WorkerMetrics>) -> nat {
    worker_total(ws, |w: WorkerMetrics| w.success_count as nat)
}

/// The errors of all the workers `ws`.
pub open spec fn total_errors(ws: Seq<WorkerMetrics>) -> nat {
    worker_total(ws, |w: WorkerMetrics| w.error_count as nat)
}

/// The bytes received by all the workers `ws`.
pub open spec fn total_bytes(ws: Seq<WorkerMetrics>) -> nat {
    worker_total(ws, |w: WorkerMetrics| w.bytes_received as nat)
}

/// The new connections of all the workers `ws`.
pub open spec fn total_new_connections(ws: Seq<WorkerMetrics>) -> nat {
    worker_total(ws, |w: WorkerMetrics| w.new_connections as nat)
}

/// The HTTP/2 responses of all the workers `ws`.
pub open spec fn total_http2(ws: Seq<WorkerMetrics>) -> nat {
    worker_total(ws, |w: WorkerMetrics| w.http2_count as nat)
}

/// The HTTP/1 responses of all the workers `ws`.
pub open spec fn total_http1(ws: Seq<WorkerMetrics>) -> nat {
    worker_total(ws, |w: WorkerMetrics| w.http1_count as nat)
}

/// The latencies of all the workers `ws`.
pub open spec fn all_latencies(ws: Seq<WorkerMetrics>) -> Multiset<u64> {
    worker_values(ws, |w: WorkerMetrics| w.histogram.values())
}

/// The times to first byte of all the workers `ws`.
pub open spec fn all_ttfbs(ws: Seq<WorkerMetrics>) -> Multiset<u64> {
    worker_values(ws, |w: WorkerMetrics| w.ttfb_histogram.values())
}

/// The transfer times of all the workers `ws`.
pub open spec fn all_transfers(ws: Seq<WorkerMetrics>) -> Multiset<u64> {
    worker_values(ws, |w: WorkerMetrics| w.transfer_histogram.values())
}

/// The scheduler delays of all the workers `ws`.
pub open spec fn all_delays(ws: Seq<WorkerMetrics>) -> Multiset<u64> {
    worker_values(ws, |w: WorkerMetrics| w.scheduler_delay_histogram.values())
}

/// Whether the measurements of the workers `ws` can be added up without a
/// count overflowing.
pub open spec fn mergeable(ws: Seq<WorkerMetrics>) -> bool {
    &&& total_successes(ws) <= u64::MAX
    &&& total_errors(ws) <= u64::MAX
    &&& total_bytes(ws) <= u64::MAX
    &&& total_new_connections(ws) <= u64::MAX
    &&& total_http2(ws) <= u64::MAX
    &&& total_http1(ws) <= u64::MAX
    &&& forall|k: u16| status_total(ws, k) <= u64::MAX
}

/// A prefix's total is no more than the whole.
proof fn lemma_worker_total_prefix(ws: Seq<WorkerMetrics>, f: spec_fn(WorkerMetrics) -> nat, k: int)
    requires
        0 <= k <= ws.len(),
    ensures
        worker_total(ws.take(k), f) <= worker_total(ws, f),
    decreases ws.len() - k,
{
    if k < ws.len() {
        lemma_worker_total_prefix(ws, f, k + 1);
        assert(ws.take(k + 1).drop_last() =~= ws.take(k));
    } else {
        assert(ws.take(k) =~= ws);
    }
}

/// A prefix's count of a status is no more than the whole's.
proof fn lemma_status_total_prefix(ws: Seq<WorkerMetrics>, status: u16, k: int)
    requires
        0 <= k <= ws.len(),
    ensures
        status_total(ws.take(k), status) <= status_total(ws, status),
    decreases ws.len() - k,
{
    if k < ws.len() {
        lemma_status_total_prefix(ws, status, k + 1);
        assert(ws.take(k + 1).drop_last() =~= ws.take(k));
    } else {
        assert(ws.take(k) =~= ws);
    }
}

/// A status no worker counted has a total of zero.
proof fn lemma_unseen_status(ws: Seq<WorkerMetrics>, k: u16)
    requires
        !status_seen(ws, k),
    ensures
        status_total(ws, k) == 0,
    decreases ws.len(),
{
    if ws.len() > 0 {
        lemma_unseen_status(ws.drop_last(), k);
    }
}

/// Adding one more worker's status counts to those of `ws` gives those of
/// `ws` with that worker.
proof fn lemma_all_statuses_push(ws: Seq<WorkerMetrics>, w: WorkerMetrics)
    requires
        forall|k: u16| status_total(ws.push(w), k) <= u64::MAX,
    ensures
        all_statuses(ws.push(w)) == merged_counts(all_statuses(ws), w.status_counts@),
        counts_fit(all_statuses(ws), w.status_counts@),
{
    let ext = ws.push(w);
    assert(ext.drop_last() =~= ws);
    assert forall|k: u16| #[trigger] count_of(all_statuses(ws), k) == status_total(ws, k) by {
        assert(status_total(ext, k) == status_total(ws, k) + count_of(w.status_counts@, k));
        if !status_seen(ws, k) {
            lemma_unseen_status(ws, k);
        }
    }
    assert forall|k: u16| count_of(all_statuses(ws), k) + count_of(w.status_counts@, k)
        <= u64::MAX by {
        assert(status_total(ext, k) == status_total(ws, k) + count_of(w.status_counts@, k));
    }
    assert forall|k: u16| #[trigger] all_statuses(ext).contains_key(k) <==> merged_counts(
        all_statuses(ws),
        w.status_counts@,
    ).contains_key(k) by {
        assert(status_seen(ext, k) == (status_seen(ws, k) || w.status_counts@.contains_key(k)));
    }
    assert forall|k: u16| #[trigger] all_statuses(ext).contains_key(k) implies all_statuses(ext)[k]
        == merged_counts(all_statuses(ws), w.status_counts@)[k] by {
        assert(status_total(ext, k) == status_total(ws, k) + count_of(w.status_counts@, k));
    }
    assert(all_statuses(ext) =~= merged_counts(all_statuses(ws), w.status_counts@));
}

/// Whether `m` holds the measurements of all the workers `ws` added up:
/// every histogram holds all their latencies, every count is their total,
/// and the status counts are added status by status.
pub open spec fn merged_from(m: WorkerMetrics, ws: Seq<WorkerMetrics>) -> bool {
    &&& m.histogram.values() == all_latencies(ws)
    &&& m.ttfb_histogram.values() == all_ttfbs(ws)
    &&& m.transfer_histogram.values() == all_transfers(ws)
    &&& m.scheduler_delay_histogram.values() == all_delays(ws)
    &&& m.success_count == total_successes(ws)
    &&& m.error_count == total_errors(ws)
    &&& m.bytes_received == total_bytes(ws)
    &&& m.new_connections == total_new_connections(ws)
    &&& m.http2_count == total_http2(ws)
    &&& m.http1_count == total_http1(ws)
    &&& m.status_counts@ == all_statuses(ws)
}

/// The measurements of all the workers, added up: every histogram holds
/// all their latencies, every count is their total, and the status counts
/// are added status by status. The caller shows that no total overflows.
pub fn merge_workers(workers: Vec<WorkerMetrics>) -> (m: WorkerMetrics)
    requires
        mergeable(workers@),
    ensures
        merged_from(m, workers@),
        (forall|j: int| 0 <= j < workers@.len() ==> all_requests_timed(#[trigger] workers@[j]))
            ==> all_requests_timed(m),
{
    let mut m = WorkerMetrics::new();
    let mut i: usize = 0;
    proof {
        assert(workers@.take(0) =~= Seq::<WorkerMetrics>::empty());
        assert(all_statuses(workers@.take(0)) =~= Map::<u16, u64>::empty());
    }
    while i < workers.len()
        invariant
            i <= workers@.len(),
            mergeable(workers@),
            m.histogram.values() == all_latencies(workers@.take(i as int)),
            m.ttfb_histogram.values() == all_ttfbs(workers@.take(i as int)),
            m.transfer_histogram.values() == all_transfers(workers@.take(i as int)),
            m.scheduler_delay_histogram.values() == all_delays(workers@.take(i as int)),
            m.success_count == total_successes(workers@.take(i as int)),
            m.error_count == total_errors(workers@.take(i as int)),
            m.bytes_received == total_bytes(workers@.take(i as int)),
            m.new_connections == total_new_connections(workers@.take(i as int)),
            m.http2_count == total_http2(workers@.take(i as int)),
            m.http1_count == total_http1(workers@.take(i as int)),
            m.status_counts@ == all_statuses(workers@.take(i as int)),
            (forall|j: int| 0 <= j < workers@.len() ==> all_requests_timed(#[trigger] workers@[j]))
                ==> all_requests_timed(m),
        decreases workers@.len() - i,
    {
        let ghost ws = workers@;
        let ghost next = ws.take(i + 1);
        proof {
            assert(next.drop_last() =~= ws.take(i as int));
            assert(next =~= ws.take(i as int).push(ws[i as int]));
            lemma_worker_total_prefix(ws, |w: WorkerMetrics| w.success_count as nat, i + 1);
            lemma_worker_total_prefix(ws, |w: WorkerMetrics| w.error_count as nat, i + 1);
            lemma_worker_total_prefix(ws, |w: WorkerMetrics| w.bytes_received as nat, i + 1);
            lemma_worker_total_prefix(ws, |w: WorkerMetrics| w.new_connections as nat, i + 1);
            lemma_worker_total_prefix(ws, |w: WorkerMetrics| w.http2_count as nat, i + 1);
            lemma_worker_total_prefix(ws, |w: WorkerMetrics| w.http1_count as nat, i + 1);
            assert forall|k: u16| status_total(next, k) <= u64::MAX by {
                lemma_status_total_prefix(ws, k, i + 1);
                assert(status_total(ws, k) <= u64::MAX);
            }
            lemma_all_statuses_push(ws.take(i as int), ws[i as int]);
        }
        m.merge(&workers[i]);
        i = i + 1;
    }
    proof {
        assert(workers@.take(workers@.len() as int) =~= workers@);
    }
    m
}

/// A run's measurements from its workers: their sum, the number of
/// requests, and which timing breakdowns recorded anything.
pub struct RunMetrics {
    pub metrics: WorkerMetrics,
    /// Successes plus errors.
    pub total_requests: u64,
    /// Whether any time to first byte was recorded.
    pub has_ttfb: bool,
    /// Whether any transfer time was recorded.
    pub has_transfer: bool,
    /// Whether any scheduler delay was recorded.
    pub has_scheduler_delay: bool,
}

/// The run's measurements from all the workers: their sum (as
/// `merge_workers`), its requests (successes plus errors), and which of
/// the timing-breakdown histograms hold a latency. The caller shows that no
/// total overflows.
pub fn merge_run(workers: Vec<WorkerMetrics>) -> (r: RunMetrics)
    requires
        mergeable(workers@),
        total_successes(workers@) + total_errors(workers@) <= u64::MAX,
    ensures
        merged_from(r.metrics, workers@),
        r.total_requests == total_successes(workers@) + total_errors(workers@),
        r.total_requests == r.metrics.success_count + r.metrics.error_count,
        r.has_ttfb == (all_ttfbs(workers@).len() > 0),
        r.has_transfer == (all_transfers(workers@).len() > 0),
        r.has_scheduler_delay == (all_delays(workers@).len() > 0),
{
    let metrics = merge_workers(workers);
    let total_requests = metrics.success_count + metrics.error_count;
    let has_ttfb = metrics.ttfb_histogram.count() > 0;
    let has_transfer = metrics.transfer_histogram.count() > 0;
    let has_scheduler_delay = metrics.scheduler_delay_histogram.count() > 0;
    RunMetrics { metrics, total_requests, has_ttfb, has_transfer, has_scheduler_delay }
}

/// What one finished request adds to the live progress counters.
#[derive(Debug, Clone, Copy, PartialEq, Eq, Structural)]
pub struct ProgressStep {
    /// One more warmup request sent.
    pub warmup: bool,
    /// One more request completed.
    pub completed: bool,
    /// One more failed request.
    pub error: bool,
    /// Bytes received.
    pub bytes: u64,
}

/// The progress step of a finished request: a warmup request counts only
/// as sent; any other counts as completed, as an error where it got no
/// response or a status of 400 or more, and with its bytes.
pub fn progress_step(is_warmup: bool, status: Option<u16>, bytes: u64) -> (p: ProgressStep)
    ensures
        p.warmup == is_warmup,
        p.completed == !is_warmup,
        p.error == (!is_warmup && match status {
            Some(s) => s >= 400,
            None => true,
        }),
        p.bytes == if is_warmup {
            0
        } else {
            bytes
        },
{
    if is_warmup {
        ProgressStep { warmup: true, completed: false, error: false, bytes: 0 }
    } else {
        let error = match status {
            Some(s) => s >= 400,
            None => true,
        };
        ProgressStep { warmup: false, completed: true, error, bytes }
    }
}

/// Counters that the workers bump concurrently for the live progress view.
///
/// Verus reasons about nothing inside `std`'s atomics, so the increments
/// carry no contract: what a counter reads depends on every thread's
/// updates.
pub struct SharedProgress {
    pub completed: AtomicU64,
    pub errors: AtomicU64,
    pub bytes: AtomicU64,
    pub warmup_sent: AtomicU64,
}

impl SharedProgress {
    /// Fresh counters, shared.
    pub fn new() -> Arc<SharedProgress> {
        Arc::new(
            SharedProgress {
                completed: AtomicU64::new(0),
                errors: AtomicU64::new(0),
                bytes: AtomicU64::new(0),
                warmup_sent: AtomicU64::new(0),
            },
        )
    }

    /// One more completed request.
    pub fn increment_completed(&self) {
        self.completed.fetch_add(1, Ordering::Relaxed);
    }

    /// One more failed request.
    pub fn increment_errors(&self) {
        self.errors.fetch_add(1, Ordering::Relaxed);
    }

    /// `n` more bytes received.
    pub fn add_bytes(&self, n: u64) {
        self.bytes.fetch_add(n, Ordering::Relaxed);
    }

    /// One more warmup request sent.
    pub fn increment_warmup(&self) {
        self.warmup_sent.fetch_add(1, Ordering::Relaxed);
    }
}

} // verus!
