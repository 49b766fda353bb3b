//! The scheduler's decisions: when a run ends, which requests fall in the
//! warmup, and how work items are numbered. The application runs the loop:
//! it reads the clock, waits for the rate limiter and hands the items to
//! the workers.

use vstd::prelude::*;
use crate::config::RunMode;
use crate::time::{Duration, Instant, MAX_NANOS};
use crate::rate::{quota_per_second, RateQuota};

verus! {

/// A request the scheduler hands to a worker.
#[derive(Debug, Clone, Copy)]
pub struct WorkItem {
    /// When the scheduler meant the request to be sent.
    pub intended_at: Instant,
    /// The item's number in the run, from zero.
    pub sequence: u64,
    /// Sent during warmup; its metrics are discarded.
    pub is_warmup: bool,
}

/// Where a run stands.
#[derive(Debug, Clone, Copy)]
pub struct Schedule {
    /// The number of requests of a counted run.
    total: Option<u64>,
    /// The end of a timed run.
    deadline: Option<Instant>,
    /// The end of the warmup, if there is one.
    warmup_end: Option<Instant>,
    /// The number of the next item.
    next_seq: u64,
}

/// Whether a request decided at `now` falls in the warmup ending at
/// `warmup_end`.
pub open spec fn in_warmup(warmup_end: Option<Instant>, now: Instant) -> bool {
    match warmup_end {
        Some(end) => now.nanos() < end.nanos(),
        None => false,
    }
}

impl Schedule {
    pub closed spec fn total(self) -> Option<u64> {
        self.total
    }

    pub closed spec fn deadline(self) -> Option<Instant> {
        self.deadline
    }

    pub closed spec fn warmup_end(self) -> Option<Instant> {
        self.warmup_end
    }

    pub closed spec fn next_seq(self) -> u64 {
        self.next_seq
    }

    /// Whether the run goes on at `now`: a counted run until it has
    /// issued its requests, a timed run until its deadline.
    pub open spec fn goes_on(self, now: Instant) -> bool {
        match self.total() {
            Some(n) => self.next_seq() < n,
            None => (self.deadline() matches Some(d) && now.nanos() < d.nanos()),
        }
    }

    /// The schedule once one more item is issued.
    pub closed spec fn issued(self) -> Schedule {
        Schedule { next_seq: (self.next_seq + 1) as u64, ..self }
    }

    /// `s` after `k` more items.
    pub open spec fn after(s: Schedule, k: nat) -> Schedule
        decreases k,
    {
        if k == 0 {
            s
        } else {
            Schedule::after(s, (k - 1) as nat).issued()
        }
    }

    /// The schedule of a run in mode `mode` starting at `now`, with an
    /// optional warmup: a counted run of `n` requests, or a timed run whose
    /// deadline is `now` plus its span; the warmup ends `warmup` after
    /// `now`. The caller shows that these points fit, as adding to a
    /// `std::time::Instant` panics otherwise.
    pub fn new(mode: RunMode, now: Instant, warmup: Option<Duration>) -> (s: Schedule)
        requires
            mode matches RunMode::Duration(d) ==> now.nanos() + d.nanos() <= MAX_NANOS,
            warmup matches Some(w) ==> now.nanos() + w.nanos() <= MAX_NANOS,
        ensures
            s.next_seq() == 0,
            match mode {
                RunMode::RequestCount(n) => s.total() == Some(n) && s.deadline() is None,
                RunMode::Duration(d) => s.total() is None && (s.deadline() matches Some(e)
                    && e.nanos() == now.nanos() + d.nanos()),
            },
            match warmup {
                Some(w) => s.warmup_end() matches Some(e) && e.nanos() == now.nanos() + w.nanos(),
                None => s.warmup_end() is None,
            },
    {
        let warmup_end = match warmup {
            Some(w) => now.checked_add(&w),
            None => None,
        };
        match mode {
            RunMode::RequestCount(n) => Schedule {
                total: Some(n),
                deadline: None,
                warmup_end,
                next_seq: 0,
            },
            RunMode::Duration(d) => Schedule {
                total: None,
                deadline: now.checked_add(&d),
                warmup_end,
                next_seq: 0,
            },
        }
    }

    /// The end of a timed run.
    pub fn deadline_at(&self) -> (d: Option<Instant>)
        ensures
            d == self.deadline(),
    {
        self.deadline
    }

    /// The decision at the top of the loop, at `now`: `None` when the run
    /// is over, otherwise whether the next request falls in the warmup.
    pub fn next_warmup(&self, now: Instant) -> (r: Option<bool>)
        ensures
            self.goes_on(now) ==> r == Some(in_warmup(self.warmup_end(), now)),
            !self.goes_on(now) ==> r is None,
    {
        let goes_on = match self.total {
            Some(n) => self.next_seq < n,
            None => match self.deadline {
                Some(d) => now.lt(&d),
                None => false,
            },
        };
        if !goes_on {
            return None;
        }
        let warm = match self.warmup_end {
            Some(end) => now.lt(&end),
            None => false,
        };
        Some(warm)
    }

    /// The decision after waiting for the rate limiter, at `now`: whether
    /// a timed run is still before its deadline (a counted run always is).
    pub fn still_open(&self, now: Instant) -> (b: bool)
        ensures
            b == match self.total() {
                Some(_) => true,
                None => (self.deadline() matches Some(d) && now.nanos() < d.nanos()),
            },
    {
        match self.total {
            Some(_) => true,
            None => match self.deadline {
                Some(d) => now.lt(&d),
                None => false,
            },
        }
    }

    /// Issues the next item, meant for `intended_at`, numbered in order.
    pub fn issue(&mut self, intended_at: Instant, is_warmup: bool) -> (item: WorkItem)
        requires
            old(self).next_seq() < u64::MAX,
        ensures
            item.sequence == old(self).next_seq(),
            item.intended_at == intended_at,
            item.is_warmup == is_warmup,
            *final(self) == old(self).issued(),
    {
        let item = WorkItem { intended_at, sequence: self.next_seq, is_warmup };
        self.next_seq = self.next_seq + 1;
        item
    }
}

/// A counted run issues exactly its `n` requests, numbered `0` to `n - 1`:
/// after `k` items the next one is numbered `k`, and, whatever the clock
/// reads, the run goes on exactly while `k < n`.
pub proof fn lemma_counted_run_issues_exactly(s: Schedule, n: u64, k: nat, now: Instant)
    requires
        s.total() == Some(n),
        s.next_seq() == 0,
        k <= n,
    ensures
        Schedule::after(s, k).next_seq() == k,
        Schedule::after(s, k).total() == Some(n),
        Schedule::after(s, k).goes_on(now) <==> k < n,
    decreases k,
{
    if k > 0 {
        lemma_counted_run_issues_exactly(s, n, (k - 1) as nat, now);
    }
}

/// A timed run ends at its deadline, however many items it has issued:
/// after any number of items it goes on exactly while the clock is before
/// the deadline, and once past the deadline it never goes on again.
pub proof fn lemma_timed_run_ends_at_deadline(
    s: Schedule,
    d: Instant,
    k: nat,
    now: Instant,
    later: Instant,
)
    requires
        s.total() is None,
        s.deadline() == Some(d),
        now.nanos() <= later.nanos(),
    ensures
        Schedule::after(s, k).total() is None,
        Schedule::after(s, k).deadline() == Some(d),
        Schedule::after(s, k).goes_on(now) <==> now.nanos() < d.nanos(),
        !Schedule::after(s, k).goes_on(now) ==> !Schedule::after(s, k).goes_on(later),
    decreases k,
{
    if k > 0 {
        lemma_timed_run_ends_at_deadline(s, d, (k - 1) as nat, now, later);
    }
}

/// The warmup decision depends only on the clock: a request decided before
/// the warmup's end is a warmup request, one decided at or after it is
/// counted, and without a warmup none is.
pub proof fn lemma_warmup_is_a_prefix(s: Schedule, early: Instant, late: Instant)
    requires
        early.nanos() <= late.nanos(),
    ensures
        in_warmup(s.warmup_end(), late) ==> in_warmup(s.warmup_end(), early),
        s.warmup_end() is None ==> !in_warmup(s.warmup_end(), late),
{
}

/// The rate limiter's quota: none without a rate limit, else one of `rps`
/// requests per second. The configuration has refused a rate of zero.
pub fn rate_quota(rate_limit: Option<u32>) -> (q: Option<RateQuota>)
    requires
        rate_limit matches Some(r) ==> r > 0,
    ensures
        match rate_limit {
            Some(r) => q matches Some(l) && l.rate() == r,
            None => q is None,
        },
{
    match rate_limit {
        Some(rps) => Some(quota_per_second(rps)),
        None => None,
    }
}

} // verus!
