//! One window (a second) of the live metrics.

use vstd::prelude::*;
use vstd::multiset::Multiset;
use crate::metrics::event::{RequestEvent, server_error_status, success_status};
use crate::metrics::histogram::{
    HdrHistogram, MAX_TRACKED_NANOS, histogram_bounds, histogram_record, histogram_values,
    latency_bounds, nanos_u64, new_latency_hdr, tracked_nanos,
};
use crate::time::{Duration, Instant};

verus! {

/// The metrics of the requests completed in one window of time.
pub struct MetricWindow {
    pub start: Instant,
    pub duration: Duration,
    pub histogram: HdrHistogram,
    pub ttfb_histogram: HdrHistogram,
    pub request_count: u64,
    pub success_count: u64,
    pub error_count: u64,
    pub server_error_count: u64,
    pub bytes_received: u64,
    pub new_connections: u64,
}

/// The latency as recorded.
pub fn clamp_latency(d: Duration) -> (n: u64)
    ensures
        n == tracked_nanos(d.nanos()),
{
    let nanos = nanos_u64(d);
    if nanos < MAX_TRACKED_NANOS {
        nanos
    } else {
        MAX_TRACKED_NANOS
    }
}

impl MetricWindow {
    /// Both histograms have the tool's bounds.
    pub open spec fn wf(&self) -> bool {
        &&& histogram_bounds(self.histogram) == latency_bounds()
        &&& histogram_bounds(self.ttfb_histogram) == latency_bounds()
    }

    /// The total latencies recorded, in nanoseconds.
    pub open spec fn latencies(&self) -> Multiset<u64> {
        histogram_values(self.histogram)
    }

    /// The times to first byte recorded, in nanoseconds.
    pub open spec fn ttfbs(&self) -> Multiset<u64> {
        histogram_values(self.ttfb_histogram)
    }

    /// Whether the counters can take one more event of `bytes` bytes.
    pub open spec fn has_room(&self, bytes: u64) -> bool {
        &&& self.request_count < u64::MAX
        &&& self.success_count < u64::MAX
        &&& self.error_count < u64::MAX
        &&& self.server_error_count < u64::MAX
        &&& self.new_connections < u64::MAX
        &&& self.bytes_received + bytes <= u64::MAX
    }

    /// Whether this is an empty window starting at `start` and lasting
    /// `duration`: no latency and no count yet.
    pub open spec fn is_fresh(&self, start: Instant, duration: Duration) -> bool {
        &&& self.wf()
        &&& self.start == start
        &&& self.duration == duration
        &&& self.latencies() =~= Multiset::empty()
        &&& self.ttfbs() =~= Multiset::empty()
        &&& self.request_count == 0
        &&& self.success_count == 0
        &&& self.error_count == 0
        &&& self.server_error_count == 0
        &&& self.bytes_received == 0
        &&& self.new_connections == 0
    }

    /// Whether `next` is this window with `event` counted: its latency (and
    /// time to first byte, when it has one) in the histograms, one more
    /// request, its bytes, a success or an error by its status, a server
    /// error for a status of 500 or more, and a new connection where it
    /// opened one.
    pub open spec fn counts_event(&self, next: MetricWindow, event: RequestEvent) -> bool {
        &&& next.wf()
        &&& next.start == self.start
        &&& next.duration == self.duration
        &&& next.latencies() == self.latencies().insert(tracked_nanos(event.total_latency.nanos()))
        &&& next.ttfbs() == match event.ttfb {
            Some(t) => self.ttfbs().insert(tracked_nanos(t.nanos())),
            None => self.ttfbs(),
        }
        &&& next.request_count == self.request_count + 1
        &&& next.bytes_received == self.bytes_received + event.bytes
        &&& next.success_count == self.success_count + if success_status(event.status) {
            1int
        } else {
            0int
        }
        &&& next.error_count == self.error_count + if success_status(event.status) {
            0int
        } else {
            1int
        }
        &&& next.server_error_count == self.server_error_count + if server_error_status(
            event.status,
        ) {
            1int
        } else {
            0int
        }
        &&& next.new_connections == self.new_connections + if event.new_connection {
            1int
        } else {
            0int
        }
    }

    /// An empty window starting at `start` and lasting `duration`.
    pub fn new(start: Instant, duration: Duration) -> (w: MetricWindow)
        ensures
            w.is_fresh(start, duration),
            w.wf(),
            w.start == start,
            w.duration == duration,
            w.latencies() =~= Multiset::empty(),
            w.ttfbs() =~= Multiset::empty(),
            w.request_count == 0,
            w.success_count == 0,
            w.error_count == 0,
            w.server_error_count == 0,
            w.bytes_received == 0,
            w.new_connections == 0,
    {
        MetricWindow {
            start,
            duration,
            histogram: new_latency_hdr(),
            ttfb_histogram: new_latency_hdr(),
            request_count: 0,
            success_count: 0,
            error_count: 0,
            server_error_count: 0,
            bytes_received: 0,
            new_connections: 0,
        }
    }

    /// Counts one event: its latency (and time to first byte, when it has
    /// one) into the histograms, one request, its bytes, a success or an
    /// error by its status, a server error for a status of 500 or more, and
    /// a new connection where it opened one.
    pub fn record(&mut self, event: &RequestEvent)
        requires
            old(self).wf(),
            old(self).has_room(event.bytes),
        ensures
            old(self).counts_event(*final(self), *event),
            final(self).wf(),
            final(self).start == old(self).start,
            final(self).duration == old(self).duration,
            final(self).latencies() == old(self).latencies().insert(
                tracked_nanos(event.total_latency.nanos()),
            ),
            final(self).ttfbs() == match event.ttfb {
                Some(t) => old(self).ttfbs().insert(tracked_nanos(t.nanos())),
                None => old(self).ttfbs(),
            },
            final(self).request_count == old(self).request_count + 1,
            final(self).bytes_received == old(self).bytes_received + event.bytes,
            final(self).success_count == old(self).success_count + if success_status(
                event.status,
            ) {
                1int
            } else {
                0int
            },
            final(self).error_count == old(self).error_count + if success_status(event.status) {
                0int
            } else {
                1int
            },
            final(self).server_error_count == old(self).server_error_count + if server_error_status(
                event.status,
            ) {
                1int
            } else {
                0int
            },
            final(self).new_connections == old(self).new_connections + if event.new_connection {
                1int
            } else {
                0int
            },
            old(self).success_count + old(self).error_count == old(self).request_count
                ==> final(self).success_count + final(self).error_count
                == final(self).request_count,
            old(self).server_error_count <= old(self).error_count
                ==> final(self).server_error_count <= final(self).error_count,
            old(self).latencies().len() == old(self).request_count
                ==> final(self).latencies().len() == final(self).request_count,
    {
        broadcast use vstd::multiset::group_multiset_axioms;

        let nanos = clamp_latency(event.total_latency);
        let _ = histogram_record(&mut self.histogram, nanos);
        if let Some(ttfb) = event.ttfb {
            let t = clamp_latency(ttfb);
            let _ = histogram_record(&mut self.ttfb_histogram, t);
        }
        self.request_count = self.request_count + 1;
        self.bytes_received = self.bytes_received + event.bytes;
        if event.is_success() {
            self.success_count = self.success_count + 1;
        } else {
            self.error_count = self.error_count + 1;
        }
        if event.is_server_error() {
            self.server_error_count = self.server_error_count + 1;
        }
        if event.new_connection {
            self.new_connections = self.new_connections + 1;
        }
    }

    /// Whether the window has ended by `now`: at least its duration has
    /// passed since its start (none has, when `now` is before the start).
    pub fn is_closed(&self, now: Instant) -> (b: bool)
        ensures
            b == (if now.nanos() >= self.start.nanos() {
                now.nanos() - self.start.nanos()
            } else {
                0
            } >= self.duration.nanos()),
    {
        self.duration.le(&now.duration_since(&self.start))
    }
}

/// The span of `nanos` nanoseconds.
pub fn nanos_to_duration(nanos: u64) -> (d: Duration)
    ensures
        d.nanos() == nanos,
{
    Duration::from_nanos(nanos)
}

} // verus!
