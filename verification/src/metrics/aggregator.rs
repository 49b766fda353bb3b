//! The aggregator's decisions: which events count, when a window closes,
//! and which closed windows the history keeps. The application runs the
//! loop: it receives the events, reads the clock, and broadcasts each
//! window as it closes.

use vstd::prelude::*;
use std::collections::VecDeque;
use crate::metrics::event::{RequestEvent, success_status};
use crate::metrics::window::MetricWindow;
use crate::time::{Duration, Instant};

verus! {

/// The most windows the history keeps: an hour of seconds.
pub const MAX_HISTORY: usize = 3600;

/// The length of a window, in nanoseconds: one second.
pub open spec fn window_nanos() -> nat {
    1_000_000_000
}

/// The length of a window: one second.
pub fn window_duration() -> (d: Duration)
    ensures
        d.nanos() == window_nanos(),
{
    Duration::from_secs(1)
}

/// `h` with `s` appended, the oldest entry dropped when `h` is full.
pub open spec fn kept<S>(h: Seq<S>, s: S) -> Seq<S> {
    if h.len() >= MAX_HISTORY {
        h.drop_first().push(s)
    } else {
        h.push(s)
    }
}

/// The sum over the windows `ws` of the count `f` reads from each.
pub open spec fn window_total(ws: Seq<MetricWindow>, f: spec_fn(MetricWindow) -> nat) -> nat
    decreases ws.len(),
{
    if ws.len() == 0 {
        0
    } else {
        window_total(ws.drop_last(), f) + f(ws.last())
    }
}

/// The sum over the events `es` of the count `f` gives each.
pub open spec fn event_total(es: Seq<RequestEvent>, f: spec_fn(RequestEvent) -> nat) -> nat
    decreases es.len(),
{
    if es.len() == 0 {
        0
    } else {
        event_total(es.drop_last(), f) + f(es.last())
    }
}

/// The requests of the windows `ws`.
pub open spec fn requests_in(ws: Seq<MetricWindow>) -> nat {
    window_total(ws, |w: MetricWindow| w.request_count as nat)
}

/// The successes of the windows `ws`.
pub open spec fn successes_in(ws: Seq<MetricWindow>) -> nat {
    window_total(ws, |w: MetricWindow| w.success_count as nat)
}

/// The errors of the windows `ws`.
pub open spec fn errors_in(ws: Seq<MetricWindow>) -> nat {
    window_total(ws, |w: MetricWindow| w.error_count as nat)
}

/// The bytes received in the windows `ws`.
pub open spec fn bytes_in(ws: Seq<MetricWindow>) -> nat {
    window_total(ws, |w: MetricWindow| w.bytes_received as nat)
}

/// How many of the events `es` succeeded (a status below 400).
pub open spec fn successful_events(es: Seq<RequestEvent>) -> nat {
    event_total(es, |e: RequestEvent| if success_status(e.status) { 1nat } else { 0nat })
}

/// How many of the events `es` failed (no response, or a status of 400 or
/// more).
pub open spec fn failed_events(es: Seq<RequestEvent>) -> nat {
    event_total(es, |e: RequestEvent| if success_status(e.status) { 0nat } else { 1nat })
}

/// The bytes received by the events `es`.
pub open spec fn event_bytes(es: Seq<RequestEvent>) -> nat {
    event_total(es, |e: RequestEvent| e.bytes as nat)
}

/// The history keeps the latest `MAX_HISTORY` closed windows: keeping one
/// more puts it last, never lets the history grow past `MAX_HISTORY`, and
/// keeps every earlier snapshot that still fits, in order.
pub proof fn lemma_history_keeps_the_latest<S>(h: Seq<S>, s: S)
    requires
        h.len() <= MAX_HISTORY,
    ensures
        kept(h, s).len() <= MAX_HISTORY,
        kept(h, s).last() == s,
        kept(h, s).len() == if h.len() < MAX_HISTORY {
            h.len() + 1int
        } else {
            MAX_HISTORY as int
        },
        forall|i: int|
            0 <= i < kept(h, s).len() - 1 ==> kept(h, s)[i] == h[i + h.len() + 1 - kept(h, s).len()],
{
}

/// Over a run, each request that is not a warmup one is counted in exactly
/// one window: the windows closed so far and the current one together hold
/// all the counted requests, their successes, errors and bytes; the history
/// keeps a snapshot of at most the latest `MAX_HISTORY` of the closed ones.
/// (`new` makes an accounted aggregation and every operation keeps it so.)
pub proof fn lemma_every_request_counted_once<S>(a: Aggregation<S>)
    requires
        a.accounted(),
    ensures
        requests_in(a.closed_windows()) + a.window().request_count == a.counted_events().len(),
        successes_in(a.closed_windows()) + a.window().success_count == successful_events(
            a.counted_events(),
        ),
        errors_in(a.closed_windows()) + a.window().error_count == failed_events(
            a.counted_events(),
        ),
        bytes_in(a.closed_windows()) + a.window().bytes_received == event_bytes(
            a.counted_events(),
        ),
        a.history().len() <= MAX_HISTORY,
        a.history().len() <= a.index(),
{
}

/// The current window and the history of closed windows, as snapshots of
/// type `S` that the application makes from each window as it closes.
pub struct Aggregation<S> {
    current_window: MetricWindow,
    history: VecDeque<S>,
    window_index: u64,
    /// The events counted so far (warmup ones are not).
    events: Ghost<Seq<RequestEvent>>,
    /// The windows closed with requests in them so far, oldest first.
    closed: Ghost<Seq<MetricWindow>>,
}

impl<S> Aggregation<S> {
    #[verifier::type_invariant]
    spec fn wf(self) -> bool {
        &&& self.current_window.wf()
        &&& self.current_window.duration.nanos() == window_nanos()
        &&& self.history@.len() <= MAX_HISTORY
    }

    /// The window being filled.
    pub closed spec fn window(self) -> MetricWindow {
        self.current_window
    }

    /// The snapshots of the closed windows kept, oldest first.
    pub closed spec fn history(self) -> Seq<S> {
        self.history@
    }

    /// The number of windows closed with requests in them so far.
    pub closed spec fn index(self) -> u64 {
        self.window_index
    }

    /// The events counted so far, in order; warmup events are not among them.
    pub closed spec fn counted_events(self) -> Seq<RequestEvent> {
        self.events@
    }

    /// The windows closed with requests in them so far, oldest first.
    pub closed spec fn closed_windows(self) -> Seq<MetricWindow> {
        self.closed@
    }

    /// Each counted event (none is a warmup event) is counted in exactly one
    /// window: the closed
    /// windows and the current one together hold as many requests,
    /// successes, errors and bytes as the counted events; every closed
    /// window has requests and is numbered by the index; and the history
    /// holds a snapshot for each of the latest of them, up to `MAX_HISTORY`.
    /// (The current window's successes and errors make up its requests, and
    /// an empty one has no bytes.)
    pub open spec fn accounted(self) -> bool {
        &&& forall|i: int|
            0 <= i < self.counted_events().len() ==> !(#[trigger] self.counted_events()[i]).is_warmup
        &&& self.index() == self.closed_windows().len()
        &&& forall|i: int|
            0 <= i < self.closed_windows().len() ==> (#[trigger] self.closed_windows()[i]).request_count > 0
        &&& self.history().len() == if self.closed_windows().len() < MAX_HISTORY {
            self.closed_windows().len() as int
        } else {
            MAX_HISTORY as int
        }
        &&& self.window().success_count + self.window().error_count == self.window().request_count
        &&& self.window().request_count == 0 ==> self.window().bytes_received == 0
        &&& requests_in(self.closed_windows()) + self.window().request_count
            == self.counted_events().len()
        &&& successes_in(self.closed_windows()) + self.window().success_count == successful_events(
            self.counted_events(),
        )
        &&& errors_in(self.closed_windows()) + self.window().error_count == failed_events(
            self.counted_events(),
        )
        &&& bytes_in(self.closed_windows()) + self.window().bytes_received == event_bytes(
            self.counted_events(),
        )
    }

    /// Whether the current window has ended by `now`.
    pub open spec fn closed_at(self, now: Instant) -> bool {
        (if now.nanos() >= self.window().start.nanos() {
            now.nanos() - self.window().start.nanos()
        } else {
            0
        }) >= window_nanos()
    }

    /// An empty aggregation whose first window starts at `now`.
    pub fn new(now: Instant) -> (a: Aggregation<S>)
        ensures
            a.window().is_fresh(now, a.window().duration),
            a.window().duration.nanos() == window_nanos(),
            a.history() == Seq::<S>::empty(),
            a.index() == 0,
            a.counted_events() == Seq::<RequestEvent>::empty(),
            a.closed_windows() == Seq::<MetricWindow>::empty(),
            a.accounted(),
    {
        let a = Aggregation {
            current_window: MetricWindow::new(now, window_duration()),
            history: VecDeque::new(),
            window_index: 0,
            events: Ghost(Seq::empty()),
            closed: Ghost(Seq::empty()),
        };
        a
    }

    /// The window being filled.
    pub fn current_window(&self) -> (w: &MetricWindow)
        ensures
            *w == self.window(),
    {
        &self.current_window
    }

    /// The number of windows closed with requests in them so far.
    pub fn window_index(&self) -> (i: u64)
        ensures
            i == self.index(),
    {
        self.window_index
    }

    /// The snapshot of the most recently closed window kept.
    pub fn latest(&self) -> (s: Option<&S>)
        ensures
            self.history().len() == 0 ==> s is None,
            self.history().len() > 0 ==> s == Some(&self.history().last()),
    {
        let n = self.history.len();
        if n == 0 {
            None
        } else {
            Some(&self.history[n - 1])
        }
    }

    /// Whether the counters can take `event` at `now` without overflowing:
    /// always when the window is closing, since a fresh one takes it.
    pub fn can_record(&self, now: Instant, event: &RequestEvent) -> (b: bool)
        ensures
            b == (self.closed_at(now) || self.window().has_room(event.bytes)),
    {
        proof {
            use_type_invariant(self);
        }
        let w = &self.current_window;
        w.is_closed(now) || (w.request_count < u64::MAX && w.success_count < u64::MAX
            && w.error_count < u64::MAX && w.server_error_count < u64::MAX && w.new_connections
            < u64::MAX && w.bytes_received <= u64::MAX - event.bytes)
    }

    /// Closes the current window and starts a fresh one at `now`: a window
    /// without requests is dropped; otherwise the snapshot `make` takes of
    /// it is kept (the oldest one dropped when the history is full) and the
    /// window count goes up. Returns whether a snapshot was kept.
    pub fn close_current_window<F: Fn(&MetricWindow, u64) -> S>(
        &mut self,
        now: Instant,
        make: &F,
    ) -> (kept_one: bool)
        requires
            forall|w: &MetricWindow, i: u64| #[trigger] make.requires((w, i)),
            old(self).index() < u64::MAX,
        ensures
            kept_one == (old(self).window().request_count > 0),
            final(self).window().is_fresh(now, old(self).window().duration),
            final(self).counted_events() == old(self).counted_events(),
            !kept_one ==> final(self).history() == old(self).history(),
            !kept_one ==> final(self).index() == old(self).index(),
            !kept_one ==> final(self).closed_windows() == old(self).closed_windows(),
            kept_one ==> final(self).index() == old(self).index() + 1,
            kept_one ==> final(self).closed_windows() == old(self).closed_windows().push(
                old(self).window(),
            ),
            kept_one ==> exists|s: S|
                make.ensures((&old(self).window(), old(self).index()), s)
                    && final(self).history() == kept(old(self).history(), s),
            old(self).accounted() ==> final(self).accounted(),
    {
        proof {
            use_type_invariant(&*self);
        }
        if self.current_window.request_count == 0 {
            self.current_window = MetricWindow::new(now, window_duration());
            proof {
                Duration::lemma_same_nanos(self.current_window.duration, old(self).window().duration);
            }
            return false;
        }
        let ghost w0 = self.current_window;
        let ghost i0 = self.window_index;
        let s = make(&self.current_window, self.window_index);
        let ghost s0 = s;
        assert(make.ensures((&w0, i0), s0));
        let mut history: VecDeque<S> = VecDeque::new();
        std::mem::swap(&mut history, &mut self.history);
        let ghost before = history@;
        if history.len() >= MAX_HISTORY {
            history.pop_front();
        }
        history.push_back(s);
        proof {
            assert(history@ =~= kept(before, s));
        }
        self.history = history;
        self.window_index = self.window_index + 1;
        self.closed = Ghost(self.closed@.push(w0));
        self.current_window = MetricWindow::new(now, window_duration());
        proof {
            Duration::lemma_same_nanos(self.current_window.duration, old(self).window().duration);
            let c = old(self).closed_windows();
            assert(self.closed@.drop_last() =~= c);
            if old(self).accounted() {
                assert forall|i: int| 0 <= i < self.closed@.len() implies (
                #[trigger] self.closed@[i]).request_count > 0 by {
                    if i < c.len() {
                        assert(self.closed@[i] == c[i]);
                    } else {
                        assert(self.closed@[i] == w0);
                    }
                }
            }
        }
        assert(make.ensures((&old(self).window(), old(self).index()), s0) && self.history()
            == kept(old(self).history(), s0));
        true
    }

    /// Starts a fresh window at `start`; what the current window holds is
    /// discarded.
    pub fn open_new_window(&mut self, start: Instant)
        ensures
            final(self).window().is_fresh(start, old(self).window().duration),
            final(self).history() == old(self).history(),
            final(self).index() == old(self).index(),
            final(self).counted_events() == old(self).counted_events(),
            final(self).closed_windows() == old(self).closed_windows(),
            old(self).accounted() && old(self).window().is_fresh(
                old(self).window().start,
                old(self).window().duration,
            ) ==> final(self).accounted(),
    {
        proof {
            use_type_invariant(&*self);
        }
        self.current_window = MetricWindow::new(start, window_duration());
        proof {
            Duration::lemma_same_nanos(self.current_window.duration, old(self).window().duration);
        }
    }

    /// At a tick of the clock, at `now`: when the window has ended, closes
    /// it (keeping its snapshot when it had requests) and opens a fresh one
    /// at `now`.
    pub fn check_window_close<F: Fn(&MetricWindow, u64) -> S>(&mut self, now: Instant, make: &F)
        requires
            forall|w: &MetricWindow, i: u64| #[trigger] make.requires((w, i)),
            old(self).index() < u64::MAX,
        ensures
            !old(self).closed_at(now) ==> *final(self) == *old(self),
            old(self).closed_at(now) ==> final(self).window().is_fresh(
                now,
                old(self).window().duration,
            ),
            old(self).closed_at(now) ==> final(self).index() == old(self).index() + if old(self).window().request_count > 0 {
                1int
            } else {
                0int
            },
            old(self).closed_at(now) && old(self).window().request_count > 0 ==> exists|s: S|
                make.ensures((&old(self).window(), old(self).index()), s)
                    && final(self).history() == kept(old(self).history(), s),
            old(self).closed_at(now) && old(self).window().request_count == 0
                ==> final(self).history() == old(self).history(),
            final(self).counted_events() == old(self).counted_events(),
            old(self).accounted() ==> final(self).accounted(),
    {
        proof {
            use_type_invariant(&*self);
        }
        if self.current_window.is_closed(now) {
            self.close_current_window(now, make);
        }
    }

    /// Takes an event that arrived at `now`: a warmup event is discarded;
    /// any other closes the window first when it has ended (keeping its
    /// snapshot when it had requests, and opening a fresh one at `now`),
    /// then is counted in the current window.
    pub fn on_event<F: Fn(&MetricWindow, u64) -> S>(
        &mut self,
        now: Instant,
        event: &RequestEvent,
        make: &F,
    )
        requires
            forall|w: &MetricWindow, i: u64| #[trigger] make.requires((w, i)),
            old(self).index() < u64::MAX,
            old(self).closed_at(now) || old(self).window().has_room(event.bytes),
        ensures
            event.is_warmup ==> *final(self) == *old(self),
            !event.is_warmup ==> final(self).counted_events() == old(self).counted_events().push(
                *event,
            ),
            !event.is_warmup && !old(self).closed_at(now) ==> old(self).window().counts_event(
                final(self).window(),
                *event,
            ),
            !event.is_warmup && !old(self).closed_at(now) ==> final(self).history() == old(self).history(),
            !event.is_warmup && !old(self).closed_at(now) ==> final(self).index() == old(self).index(),
            !event.is_warmup && old(self).closed_at(now) ==> exists|fresh: MetricWindow|
                fresh.is_fresh(now, old(self).window().duration) && #[trigger] fresh.counts_event(
                    final(self).window(),
                    *event,
                ),
            !event.is_warmup && old(self).closed_at(now) ==> final(self).index() == old(self).index()
                + if old(self).window().request_count > 0 {
                1int
            } else {
                0int
            },
            !event.is_warmup && old(self).closed_at(now) && old(self).window().request_count > 0
                ==> exists|s: S|
                make.ensures((&old(self).window(), old(self).index()), s)
                    && final(self).history() == kept(old(self).history(), s),
            !event.is_warmup && old(self).closed_at(now) && old(self).window().request_count == 0
                ==> final(self).history() == old(self).history(),
            old(self).accounted() ==> final(self).accounted(),
    {
        if event.is_warmup {
            return;
        }
        proof {
            use_type_invariant(&*self);
        }
        let closing = self.current_window.is_closed(now);
        assert(closing == old(self).closed_at(now));
        if closing {
            self.close_current_window(now, make);
        }
        proof {
            use_type_invariant(&*self);
        }
        let ghost mid = *self;
        let mut w = MetricWindow::new(now, window_duration());
        std::mem::swap(&mut w, &mut self.current_window);
        let ghost before = w;
        w.record(event);
        self.current_window = w;
        self.events = Ghost(self.events@.push(*event));
        proof {
            let es = self.events@;
            assert(es.drop_last() =~= mid.counted_events());
            assert(before == mid.window());
            assert(before.counts_event(self.current_window, *event));
            if closing {
                assert(before.is_fresh(now, old(self).window().duration));
                assert(self.window() == self.current_window);
                assert(exists|fresh: MetricWindow|
                    fresh.is_fresh(now, old(self).window().duration) && #[trigger] fresh.counts_event(
                        self.window(),
                        *event,
                    ));
            }
        }
    }

    /// The snapshots kept, oldest first.
    pub fn into_history(self) -> (v: Vec<S>)
        ensures
            v@ == self.history(),
            v@.len() <= MAX_HISTORY,
    {
        proof {
            use_type_invariant(&self);
        }
        let mut history = self.history;
        let ghost all = history@;
        let mut v: Vec<S> = Vec::new();
        while history.len() > 0
            invariant
                v@ + history@ == all,
            decreases history@.len(),
        {
            let ghost before = history@;
            match history.pop_front() {
                Some(s) => {
                    v.push(s);
                    assert(v@ + history@ =~= all);
                },
                None => {},
            }
        }
        assert(v@ =~= all);
        v
    }
}

} // verus!
