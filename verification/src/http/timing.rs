//! The timing of a single HTTP request.

use vstd::prelude::*;
use crate::time::{Duration, Instant};

verus! {

/// The HTTP version a response came with.
#[derive(Debug, Clone, Copy, PartialEq, Eq, Structural)]
pub enum HttpProtocol {
    Http1,
    Http2,
    Unknown,
}

impl Default for HttpProtocol {
    fn default() -> (p: HttpProtocol)
        ensures
            p == HttpProtocol::Http1,
    {
        HttpProtocol::Http1
    }
}

/// The points in time of one request, and what came back.
#[derive(Debug, Clone, Copy)]
pub struct RequestTiming {
    /// When the scheduler meant the request to be sent.
    pub scheduled_at: Option<Instant>,
    /// When the request was sent.
    pub send_start: Option<Instant>,
    /// When the first byte of the response arrived.
    pub first_byte_at: Option<Instant>,
    /// When the last byte of the response arrived.
    pub last_byte_at: Option<Instant>,
    pub status: Option<u16>,
    pub response_bytes: u64,
    pub connection_reused: bool,
    pub protocol: HttpProtocol,
}

impl Default for RequestTiming {
    fn default() -> (t: RequestTiming)
        ensures
            t.scheduled_at is None,
            t.send_start is None,
            t.first_byte_at is None,
            t.last_byte_at is None,
            t.status is None,
            t.response_bytes == 0,
            !t.connection_reused,
            t.protocol == HttpProtocol::Http1,
    {
        RequestTiming {
            scheduled_at: None,
            send_start: None,
            first_byte_at: None,
            last_byte_at: None,
            status: None,
            response_bytes: 0,
            connection_reused: false,
            protocol: HttpProtocol::Http1,
        }
    }
}

/// The span from `start` to `end` in nanoseconds, when both are known and
/// `end` is not before `start`.
pub open spec fn span_between(start: Option<Instant>, end: Option<Instant>) -> Option<nat> {
    match (start, end) {
        (Some(s), Some(e)) => if e.nanos() >= s.nanos() {
            Some((e.nanos() - s.nanos()) as nat)
        } else {
            None
        },
        _ => None,
    }
}

/// A measured span that is `expected` in nanoseconds.
pub open spec fn span_is(d: Option<Duration>, expected: Option<nat>) -> bool {
    match expected {
        Some(n) => d matches Some(x) && x.nanos() == n,
        None => d is None,
    }
}

fn between(start: Option<Instant>, end: Option<Instant>) -> (d: Option<Duration>)
    ensures
        span_is(d, span_between(start, end)),
{
    match (start, end) {
        (Some(s), Some(e)) => e.checked_duration_since(&s),
        _ => None,
    }
}

impl RequestTiming {
    /// Total latency, from the scheduler's intended send time to the last
    /// byte of the response.
    pub fn total_latency(&self) -> (d: Option<Duration>)
        ensures
            span_is(d, span_between(self.scheduled_at, self.last_byte_at)),
    {
        between(self.scheduled_at, self.last_byte_at)
    }

    /// Time to first byte, from sending to the first byte of the response.
    pub fn ttfb(&self) -> (d: Option<Duration>)
        ensures
            span_is(d, span_between(self.send_start, self.first_byte_at)),
    {
        between(self.send_start, self.first_byte_at)
    }

    /// Transfer time, from the first to the last byte of the response.
    pub fn transfer_time(&self) -> (d: Option<Duration>)
        ensures
            span_is(d, span_between(self.first_byte_at, self.last_byte_at)),
    {
        between(self.first_byte_at, self.last_byte_at)
    }

    /// Scheduler delay, from the intended send time to the actual one.
    pub fn scheduler_delay(&self) -> (d: Option<Duration>)
        ensures
            span_is(d, span_between(self.scheduled_at, self.send_start)),
    {
        between(self.scheduled_at, self.send_start)
    }
}

/// A request's total latency is its scheduler delay, its time to first byte
/// and its transfer time together, whenever its four points are known and
/// in order.
pub proof fn lemma_latency_splits(t: RequestTiming)
    requires
        t.scheduled_at is Some,
        t.send_start is Some,
        t.first_byte_at is Some,
        t.last_byte_at is Some,
        t.scheduled_at->0.nanos() <= t.send_start->0.nanos(),
        t.send_start->0.nanos() <= t.first_byte_at->0.nanos(),
        t.first_byte_at->0.nanos() <= t.last_byte_at->0.nanos(),
    ensures
        span_between(t.scheduled_at, t.last_byte_at)->0 == span_between(
            t.scheduled_at,
            t.send_start,
        )->0 + span_between(t.send_start, t.first_byte_at)->0 + span_between(
            t.first_byte_at,
            t.last_byte_at,
        )->0,
{
}

} // verus!
