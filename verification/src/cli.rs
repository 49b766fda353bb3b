//! Turning the command-line arguments into a validated configuration.

use vstd::prelude::*;
use vstd::string::StringExecFns;
use crate::config::{
    Config, Headers, HttpMethod, OutputFormat, RunMode, count_mode_error, method_named,
    settings_error, span_mode_error, url_parse_error,
};
use crate::error::{BastionError, invalid_config, is_invalid_config};
use crate::text::{
    chars_of, decimal, digit_char, is_white_space, lower_case, range_is, string_from, string_of, to_lowercase, trim,
    trim_bounds, upper_case, white_space,
};
use crate::time::{Duration, MAX_NANOS, NANOS_PER_SEC};

verus! {

/// The command-line arguments, as the argument parser hands them over.
#[derive(Debug)]
pub struct BastionCli {
    /// Target URL to benchmark.
    pub url: String,
    /// Total number of requests to send.
    pub requests: Option<u64>,
    /// How long to run the benchmark, e.g. "30s", "2m".
    pub duration: Option<String>,
    /// Number of concurrent workers.
    pub concurrency: usize,
    /// Requests per second rate limit.
    pub rate_limit: Option<u32>,
    /// Per-request timeout, e.g. "5s", "500ms".
    pub timeout: String,
    /// Warmup duration: traffic is sent but metrics are discarded.
    pub warmup: Option<String>,
    /// HTTP method.
    pub method: String,
    /// Request body.
    pub body: Option<String>,
    /// Custom headers, "Key: Value".
    pub headers: Vec<String>,
    /// Output format: terminal, json, csv.
    pub output_format: String,
    /// File path to write report output.
    pub output_file: Option<String>,
    /// Disable the live progress display.
    pub no_progress: bool,
    /// Disable HTTP keep-alive.
    pub no_keep_alive: bool,
    /// Follow HTTP redirects.
    pub follow_redirects: bool,
    /// Enable HTTP/2.
    pub http2: bool,
    /// Threshold assertions.
    pub assertions: Vec<String>,
    /// Path to a baseline JSON report for comparison.
    pub compare: Option<String>,
    /// Write the per-second time series to this file.
    pub csv_file: Option<String>,
}

/// `humantime::parse_duration` on `s`: whole seconds and nanoseconds, or
/// the message of its error.
pub uninterp spec fn humantime_parse(s: Seq<char>) -> Result<(u64, u32), Seq<char>>;

/// The value of the decimal digit `c`.
pub open spec fn digit_value(c: char) -> nat {
    (c as int - '0' as int) as nat
}

/// A character `humantime` takes in a unit's name: an ASCII letter or `µ`.
pub open spec fn is_unit_char(c: char) -> bool {
    ('a' <= c && c <= 'z') || ('A' <= c && c <= 'Z') || c == '\u{b5}'
}

/// The length in nanoseconds of the unit that `humantime` names `w`, or
/// `None` where it knows no unit of that name (its `Unit::from_str`).
pub open spec fn unit_nanos(w: Seq<char>) -> Option<nat> {
    if w == "nanos"@ || w == "nsec"@ || w == "ns"@ {
        Some(1)
    } else if w == "usec"@ || w == "us"@ || w == seq!['\u{b5}', 's'] {
        Some(1_000)
    } else if w == "millis"@ || w == "msec"@ || w == "ms"@ {
        Some(1_000_000)
    } else if w == "seconds"@ || w == "second"@ || w == "secs"@ || w == "sec"@ || w == "s"@ {
        Some(1_000_000_000)
    } else if w == "minutes"@ || w == "minute"@ || w == "min"@ || w == "mins"@ || w == "m"@ {
        Some(60_000_000_000)
    } else if w == "hours"@ || w == "hour"@ || w == "hr"@ || w == "hrs"@ || w == "h"@ {
        Some(3_600_000_000_000)
    } else if w == "days"@ || w == "day"@ || w == "d"@ {
        Some(86_400_000_000_000)
    } else if w == "weeks"@ || w == "week"@ || w == "wk"@ || w == "wks"@ || w == "w"@ {
        Some(604_800_000_000_000)
    } else if w == "months"@ || w == "month"@ || w == "M"@ {
        Some(2_630_016_000_000_000)
    } else if w == "years"@ || w == "year"@ || w == "yr"@ || w == "yrs"@ || w == "y"@ {
        Some(31_557_600_000_000_000)
    } else {
        None
    }
}

/// The state of a left-to-right scan of a duration text that bounds, in
/// nanoseconds, the spans it adds up: the bound of the parts already ended
/// (`total`), the digit groups read since (`pending`), the group being read
/// (`current`), the unit name being read (`word`), and whether the scan has
/// reached a point where `humantime` stops with an error (`stopped`).
pub struct SpanScan {
    pub total: nat,
    pub pending: nat,
    pub current: nat,
    pub word: Seq<char>,
    pub stopped: bool,
}

/// Ends the unit name being read: its part adds the digit groups read for
/// it, each weighted by the unit's length. An unknown name stops the scan,
/// as it stops `humantime`.
pub open spec fn end_word(st: SpanScan) -> SpanScan {
    if st.stopped || st.word.len() == 0 {
        st
    } else {
        match unit_nanos(st.word) {
            Some(u) => SpanScan {
                total: st.total + st.pending * u,
                pending: 0,
                word: Seq::empty(),
                ..st
            },
            None => SpanScan { stopped: true, ..st },
        }
    }
}

/// One character of the scan. Digits form groups (white space inside a
/// group is skipped, as `humantime` skips it); a digit or white space after
/// a unit name ends that name; a letter moves the group into `pending` and
/// extends the name; a `.` before any name moves the integer group into
/// `pending`, so that the fraction's digits form a group of their own; any
/// other character, or a `.` after a name, is one `humantime` stops at.
pub open spec fn span_step(st: SpanScan, c: char) -> SpanScan {
    if st.stopped {
        st
    } else if '0' <= c && c <= '9' {
        let e = end_word(st);
        if e.stopped {
            e
        } else {
            SpanScan { current: e.current * 10 + digit_value(c), ..e }
        }
    } else if is_white_space(c) {
        end_word(st)
    } else if is_unit_char(c) {
        SpanScan {
            pending: st.pending + st.current,
            current: 0,
            word: st.word.push(c),
            ..st
        }
    } else if c == '.' && st.word.len() == 0 {
        SpanScan { pending: st.pending + st.current, current: 0, ..st }
    } else {
        SpanScan { stopped: true, ..st }
    }
}

/// The scan of the whole of `s`.
pub open spec fn span_scan(s: Seq<char>) -> SpanScan
    decreases s.len(),
{
    if s.len() == 0 {
        SpanScan { total: 0, pending: 0, current: 0, word: Seq::empty(), stopped: false }
    } else {
        span_step(span_scan(s.drop_last()), s.last())
    }
}

/// A bound, in nanoseconds, on every running total `humantime` reaches
/// while reading `s`: each part it adds is a number of a unit plus a
/// fraction of that unit, and the number and the fraction's digits are
/// groups of the scan that weigh in with the unit's full length each.
pub open spec fn span_bound(s: Seq<char>) -> nat {
    end_word(span_scan(s)).total
}

/// Whether that bound stays within the largest `std::time::Duration`.
/// `humantime` builds a `Duration` after each part, which panics only where
/// a running total comes to exactly `u64::MAX + 1` seconds, one nanosecond
/// past the largest `Duration`; within the bound no running total does.
pub open spec fn span_bound_fits(s: Seq<char>) -> bool {
    span_bound(s) <= MAX_NANOS
}

/// The bound only grows as the text is read: the parts ended in any prefix
/// are counted in the bound of the whole.
proof fn lemma_span_total_within_bound(s: Seq<char>, k: int)
    requires
        0 <= k <= s.len(),
    ensures
        span_scan(s.take(k)).total <= span_bound(s),
    decreases s.len() - k,
{
    if k < s.len() {
        lemma_span_total_within_bound(s, k + 1);
        assert(s.take(k + 1).drop_last() =~= s.take(k));
    } else {
        assert(s.take(k) =~= s);
    }
}

/// The scan of `b` from the state `st`.
pub open spec fn scan_from(st: SpanScan, b: Seq<char>) -> SpanScan
    decreases b.len(),
{
    if b.len() == 0 {
        st
    } else {
        span_step(scan_from(st, b.drop_last()), b.last())
    }
}

/// Scanning `a + b` scans `a`, then `b` from where `a` left off.
proof fn lemma_scan_concat(a: Seq<char>, b: Seq<char>)
    ensures
        span_scan(a + b) == scan_from(span_scan(a), b),
    decreases b.len(),
{
    if b.len() == 0 {
        assert(a + b =~= a);
    } else {
        lemma_scan_concat(a, b.drop_last());
        assert((a + b).drop_last() =~= a + b.drop_last());
    }
}

/// The decimal numeral of `n` scans as one group of value `n`.
proof fn lemma_scan_decimal(n: nat)
    ensures
        span_scan(decimal(n)) == (SpanScan {
            total: 0,
            pending: 0,
            current: n,
            word: Seq::empty(),
            stopped: false,
        }),
    decreases n,
{
    let d = digit_char(n % 10);
    assert('0' <= d && d <= '9' && digit_value(d) == n % 10);
    let s = decimal(n);
    assert(s.len() > 0 && s.last() == d);
    assert(span_scan(s) == span_step(span_scan(s.drop_last()), d));
    if n < 10 {
        assert(s.drop_last() =~= Seq::<char>::empty());
        assert(span_scan(s.drop_last()) == span_scan(Seq::<char>::empty()));
    } else {
        lemma_scan_decimal(n / 10);
        assert(s.drop_last() =~= decimal(n / 10));
        assert((n / 10) * 10 + n % 10 == n);
    }
}

/// A run of unit letters read after a number moves the number into
/// `pending` and becomes the unit name.
proof fn lemma_scan_word(st: SpanScan, w: Seq<char>)
    requires
        w.len() > 0,
        forall|i: int| 0 <= i < w.len() ==> is_unit_char(#[trigger] w[i]),
        !st.stopped,
        st.word.len() == 0,
    ensures
        scan_from(st, w) == (SpanScan {
            pending: st.pending + st.current,
            current: 0,
            word: w,
            ..st
        }),
    decreases w.len(),
{
    let c = w.last();
    assert(is_unit_char(w[w.len() - 1]));
    assert(is_unit_char(c) && !('0' <= c && c <= '9') && !is_white_space(c));
    assert(scan_from(st, w) == span_step(scan_from(st, w.drop_last()), c));
    if w.len() == 1 {
        assert(w.drop_last() =~= Seq::<char>::empty());
        assert(scan_from(st, w.drop_last()) == st);
        assert(st.word.push(c) =~= w);
    } else {
        assert forall|i: int| 0 <= i < w.drop_last().len() implies is_unit_char(
            #[trigger] w.drop_last()[i],
        ) by {
            assert(w.drop_last()[i] == w[i]);
        }
        lemma_scan_word(st, w.drop_last());
        assert(w.drop_last().push(c) =~= w);
    }
}

/// A whole number followed by a run of unit letters is bounded by that
/// number of the unit's length, or by nothing for an unknown unit.
proof fn lemma_bound_of_count(n: nat, w: Seq<char>)
    requires
        w.len() > 0,
        forall|i: int| 0 <= i < w.len() ==> is_unit_char(#[trigger] w[i]),
    ensures
        span_bound(decimal(n) + w) == match unit_nanos(w) {
            Some(u) => n * u,
            None => 0,
        },
{
    lemma_scan_decimal(n);
    lemma_scan_concat(decimal(n), w);
    lemma_scan_word(span_scan(decimal(n)), w);
}

/// What a count of each unit weighs in the bound: `n` of a unit that
/// `humantime` names `w` weighs `n` times that unit's length in
/// nanoseconds (a microsecond 1,000 nanoseconds, a millisecond 1,000,000, a
/// second 10^9, a minute 60 seconds, an hour 3,600, a day 86,400, a week
/// 604,800, a month of 30.44 days 2,630,016 and a year of 365.25 days
/// 31,557,600). Such a text whose span fits the largest `Duration` (for the
/// units of whole seconds: `n` times the unit's seconds at most
/// `u64::MAX`) reads as `humantime` reads it.
pub proof fn law_counts_weigh_their_unit(n: nat, w: Seq<char>)
    ensures
        (w == "nanos"@ || w == "nsec"@ || w == "ns"@) ==> span_bound(decimal(n) + w) == n,
        (w == "usec"@ || w == "us"@ || w == seq!['\u{b5}', 's']) ==> span_bound(decimal(n) + w) == n
            * 1_000,
        (w == "millis"@ || w == "msec"@ || w == "ms"@) ==> span_bound(decimal(n) + w) == n
            * 1_000_000,
        (w == "seconds"@ || w == "second"@ || w == "secs"@ || w == "sec"@ || w == "s"@) ==> (
        span_bound(decimal(n) + w) == n * NANOS_PER_SEC && (n <= u64::MAX ==> duration_reading(
            decimal(n) + w,
        ) == humantime_parse(decimal(n) + w))),
        (w == "minutes"@ || w == "minute"@ || w == "min"@ || w == "mins"@ || w == "m"@) ==> (
        span_bound(decimal(n) + w) == n * 60 * NANOS_PER_SEC && (n * 60 <= u64::MAX
            ==> duration_reading(decimal(n) + w) == humantime_parse(decimal(n) + w))),
        (w == "hours"@ || w == "hour"@ || w == "hr"@ || w == "hrs"@ || w == "h"@) ==> (
        span_bound(decimal(n) + w) == n * 3_600 * NANOS_PER_SEC && (n * 3_600 <= u64::MAX
            ==> duration_reading(decimal(n) + w) == humantime_parse(decimal(n) + w))),
        (w == "days"@ || w == "day"@ || w == "d"@) ==> (span_bound(decimal(n) + w) == n * 86_400
            * NANOS_PER_SEC && (n * 86_400 <= u64::MAX ==> duration_reading(decimal(n) + w)
            == humantime_parse(decimal(n) + w))),
        (w == "weeks"@ || w == "week"@ || w == "wk"@ || w == "wks"@ || w == "w"@) ==> (
        span_bound(decimal(n) + w) == n * 604_800 * NANOS_PER_SEC && (n * 604_800 <= u64::MAX
            ==> duration_reading(decimal(n) + w) == humantime_parse(decimal(n) + w))),
        (w == "months"@ || w == "month"@ || w == "M"@) ==> (span_bound(decimal(n) + w) == n
            * 2_630_016 * NANOS_PER_SEC && (n * 2_630_016 <= u64::MAX ==> duration_reading(
            decimal(n) + w,
        ) == humantime_parse(decimal(n) + w))),
        (w == "years"@ || w == "year"@ || w == "yr"@ || w == "yrs"@ || w == "y"@) ==> (
        span_bound(decimal(n) + w) == n * 31_557_600 * NANOS_PER_SEC && (n * 31_557_600
            <= u64::MAX ==> duration_reading(decimal(n) + w) == humantime_parse(decimal(n) + w))),
{
    if w == "nanos"@ || w == "nsec"@ || w == "ns"@ {
        lemma_count_of_nanoseconds(n, w);
    }
    if w == "usec"@ || w == "us"@ || w == seq!['\u{b5}', 's'] {
        lemma_count_of_microseconds(n, w);
    }
    if w == "millis"@ || w == "msec"@ || w == "ms"@ {
        lemma_count_of_milliseconds(n, w);
    }
    if w == "seconds"@ || w == "second"@ || w == "secs"@ || w == "sec"@ || w == "s"@ {
        lemma_count_of_seconds(n, w);
    }
    if w == "minutes"@ || w == "minute"@ || w == "min"@ || w == "mins"@ || w == "m"@ {
        lemma_count_of_minutes(n, w);
    }
    if w == "hours"@ || w == "hour"@ || w == "hr"@ || w == "hrs"@ || w == "h"@ {
        lemma_count_of_hours(n, w);
    }
    if w == "days"@ || w == "day"@ || w == "d"@ {
        lemma_count_of_days(n, w);
    }
    if w == "weeks"@ || w == "week"@ || w == "wk"@ || w == "wks"@ || w == "w"@ {
        lemma_count_of_weeks(n, w);
    }
    if w == "months"@ || w == "month"@ || w == "M"@ {
        lemma_count_of_months(n, w);
    }
    if w == "years"@ || w == "year"@ || w == "yr"@ || w == "yrs"@ || w == "y"@ {
        lemma_count_of_years(n, w);
    }
}

/// A whole number of nanoseconds, as `humantime` names them.
proof fn lemma_count_of_nanoseconds(n: nat, w: Seq<char>)
    requires
        w == "nanos"@ || w == "nsec"@ || w == "ns"@,
    ensures
        span_bound(decimal(n) + w) == n * 1,
{
    reveal_strlit("nanos");
    reveal_strlit("nsec");
    reveal_strlit("ns");
    if w == "nanos"@ {
        assert(unit_nanos("nanos"@) == Some(1nat)) by {
            lemma_unit_named_nanos();
        }
    } else if w == "nsec"@ {
        assert(unit_nanos("nsec"@) == Some(1nat)) by {
            lemma_unit_named_nsec();
        }
    } else if w == "ns"@ {
        assert(unit_nanos("ns"@) == Some(1nat)) by {
            lemma_unit_named_ns();
        }
    }
    assert(forall|i: int| 0 <= i < w.len() ==> is_unit_char(#[trigger] w[i]));
    lemma_bound_of_count(n, w);
}

/// A whole number of microseconds, as `humantime` names them.
proof fn lemma_count_of_microseconds(n: nat, w: Seq<char>)
    requires
        w == "usec"@ || w == "us"@ || w == seq!['\u{b5}', 's'],
    ensures
        span_bound(decimal(n) + w) == n * 1_000,
{
    reveal_strlit("nanos");
    reveal_strlit("nsec");
    reveal_strlit("ns");
    reveal_strlit("usec");
    reveal_strlit("us");
    if w == "usec"@ {
        assert(unit_nanos("usec"@) == Some(1_000nat)) by {
            lemma_unit_named_usec();
        }
    } else if w == "us"@ {
        assert(unit_nanos("us"@) == Some(1_000nat)) by {
            lemma_unit_named_us();
        }
    } else if w == seq!['\u{b5}', 's'] {
        lemma_unit_named_micro_sign();
    }
    assert(forall|i: int| 0 <= i < w.len() ==> is_unit_char(#[trigger] w[i]));
    lemma_bound_of_count(n, w);
}

/// A whole number of milliseconds, as `humantime` names them.
proof fn lemma_count_of_milliseconds(n: nat, w: Seq<char>)
    requires
        w == "millis"@ || w == "msec"@ || w == "ms"@,
    ensures
        span_bound(decimal(n) + w) == n * 1_000_000,
{
    reveal_strlit("nanos");
    reveal_strlit("nsec");
    reveal_strlit("ns");
    reveal_strlit("usec");
    reveal_strlit("us");
    reveal_strlit("millis");
    reveal_strlit("msec");
    reveal_strlit("ms");
    if w == "millis"@ {
        assert(unit_nanos("millis"@) == Some(1_000_000nat)) by {
            lemma_unit_named_millis();
        }
    } else if w == "msec"@ {
        assert(unit_nanos("msec"@) == Some(1_000_000nat)) by {
            lemma_unit_named_msec();
        }
    } else if w == "ms"@ {
        assert(unit_nanos("ms"@) == Some(1_000_000nat)) by {
            lemma_unit_named_ms();
        }
    }
    assert(forall|i: int| 0 <= i < w.len() ==> is_unit_char(#[trigger] w[i]));
    lemma_bound_of_count(n, w);
}

/// A whole number of seconds, as `humantime` names them.
proof fn lemma_count_of_seconds(n: nat, w: Seq<char>)
    requires
        w == "seconds"@ || w == "second"@ || w == "secs"@ || w == "sec"@ || w == "s"@,
    ensures
        span_bound(decimal(n) + w) == n * 1 * NANOS_PER_SEC,
        n * 1 <= u64::MAX ==> duration_reading(decimal(n) + w) == humantime_parse(
            decimal(n) + w,
        ),
{
    reveal_strlit("nanos");
    reveal_strlit("nsec");
    reveal_strlit("ns");
    reveal_strlit("usec");
    reveal_strlit("us");
    reveal_strlit("millis");
    reveal_strlit("msec");
    reveal_strlit("ms");
    reveal_strlit("seconds");
    reveal_strlit("second");
    reveal_strlit("secs");
    reveal_strlit("sec");
    reveal_strlit("s");
    if w == "seconds"@ {
        assert(unit_nanos("seconds"@) == Some((1nat * NANOS_PER_SEC) as nat)) by {
            lemma_unit_named_seconds();
        }
    } else if w == "second"@ {
        assert(unit_nanos("second"@) == Some((1nat * NANOS_PER_SEC) as nat)) by {
            lemma_unit_named_second();
        }
    } else if w == "secs"@ {
        assert(unit_nanos("secs"@) == Some((1nat * NANOS_PER_SEC) as nat)) by {
            lemma_unit_named_secs();
        }
    } else if w == "sec"@ {
        assert(unit_nanos("sec"@) == Some((1nat * NANOS_PER_SEC) as nat)) by {
            lemma_unit_named_sec();
        }
    } else if w == "s"@ {
        assert(unit_nanos("s"@) == Some((1nat * NANOS_PER_SEC) as nat)) by {
            lemma_unit_named_s();
        }
    }
    assert(forall|i: int| 0 <= i < w.len() ==> is_unit_char(#[trigger] w[i]));
    lemma_count_reading(n, w, 1);
}

/// A whole number of minutes, as `humantime` names them.
proof fn lemma_count_of_minutes(n: nat, w: Seq<char>)
    requires
        w == "minutes"@ || w == "minute"@ || w == "min"@ || w == "mins"@ || w == "m"@,
    ensures
        span_bound(decimal(n) + w) == n * 60 * NANOS_PER_SEC,
        n * 60 <= u64::MAX ==> duration_reading(decimal(n) + w) == humantime_parse(
            decimal(n) + w,
        ),
{
    reveal_strlit("nanos");
    reveal_strlit("nsec");
    reveal_strlit("ns");
    reveal_strlit("usec");
    reveal_strlit("us");
    reveal_strlit("millis");
    reveal_strlit("msec");
    reveal_strlit("ms");
    reveal_strlit("seconds");
    reveal_strlit("second");
    reveal_strlit("secs");
    reveal_strlit("sec");
    reveal_strlit("s");
    reveal_strlit("minutes");
    reveal_strlit("minute");
    reveal_strlit("min");
    reveal_strlit("mins");
    reveal_strlit("m");
    if w == "minutes"@ {
        assert(unit_nanos("minutes"@) == Some((60nat * NANOS_PER_SEC) as nat)) by {
            lemma_unit_named_minutes();
        }
    } else if w == "minute"@ {
        assert(unit_nanos("minute"@) == Some((60nat * NANOS_PER_SEC) as nat)) by {
            lemma_unit_named_minute();
        }
    } else if w == "min"@ {
        assert(unit_nanos("min"@) == Some((60nat * NANOS_PER_SEC) as nat)) by {
            lemma_unit_named_min();
        }
    } else if w == "mins"@ {
        assert(unit_nanos("mins"@) == Some((60nat * NANOS_PER_SEC) as nat)) by {
            lemma_unit_named_mins();
        }
    } else if w == "m"@ {
        assert(unit_nanos("m"@) == Some((60nat * NANOS_PER_SEC) as nat)) by {
            lemma_unit_named_m();
        }
    }
    assert(forall|i: int| 0 <= i < w.len() ==> is_unit_char(#[trigger] w[i]));
    lemma_count_reading(n, w, 60);
}

/// A whole number of hours, as `humantime` names them.
proof fn lemma_count_of_hours(n: nat, w: Seq<char>)
    requires
        w == "hours"@ || w == "hour"@ || w == "hr"@ || w == "hrs"@ || w == "h"@,
    ensures
        span_bound(decimal(n) + w) == n * 3_600 * NANOS_PER_SEC,
        n * 3_600 <= u64::MAX ==> duration_reading(decimal(n) + w) == humantime_parse(
            decimal(n) + w,
        ),
{
    reveal_strlit("nanos");
    reveal_strlit("nsec");
    reveal_strlit("ns");
    reveal_strlit("usec");
    reveal_strlit("us");
    reveal_strlit("millis");
    reveal_strlit("msec");
    reveal_strlit("ms");
    reveal_strlit("seconds");
    reveal_strlit("second");
    reveal_strlit("secs");
    reveal_strlit("sec");
    reveal_strlit("s");
    reveal_strlit("minutes");
    reveal_strlit("minute");
    reveal_strlit("min");
    reveal_strlit("mins");
    reveal_strlit("m");
    reveal_strlit("hours");
    reveal_strlit("hour");
    reveal_strlit("hr");
    reveal_strlit("hrs");
    reveal_strlit("h");
    if w == "hours"@ {
        assert(unit_nanos("hours"@) == Some((3_600nat * NANOS_PER_SEC) as nat)) by {
            lemma_unit_named_hours();
        }
    } else if w == "hour"@ {
        assert(unit_nanos("hour"@) == Some((3_600nat * NANOS_PER_SEC) as nat)) by {
            lemma_unit_named_hour();
        }
    } else if w == "hr"@ {
        assert(unit_nanos("hr"@) == Some((3_600nat * NANOS_PER_SEC) as nat)) by {
            lemma_unit_named_hr();
        }
    } else if w == "hrs"@ {
        assert(unit_nanos("hrs"@) == Some((3_600nat * NANOS_PER_SEC) as nat)) by {
            lemma_unit_named_hrs();
        }
    } else if w == "h"@ {
        assert(unit_nanos("h"@) == Some((3_600nat * NANOS_PER_SEC) as nat)) by {
            lemma_unit_named_h();
        }
    }
    assert(forall|i: int| 0 <= i < w.len() ==> is_unit_char(#[trigger] w[i]));
    lemma_count_reading(n, w, 3_600);
}

/// A whole number of days, as `humantime` names them.
proof fn lemma_count_of_days(n: nat, w: Seq<char>)
    requires
        w == "days"@ || w == "day"@ || w == "d"@,
    ensures
        span_bound(decimal(n) + w) == n * 86_400 * NANOS_PER_SEC,
        n * 86_400 <= u64::MAX ==> duration_reading(decimal(n) + w) == humantime_parse(
            decimal(n) + w,
        ),
{
    reveal_strlit("nanos");
    reveal_strlit("nsec");
    reveal_strlit("ns");
    reveal_strlit("usec");
    reveal_strlit("us");
    reveal_strlit("millis");
    reveal_strlit("msec");
    reveal_strlit("ms");
    reveal_strlit("seconds");
    reveal_strlit("second");
    reveal_strlit("secs");
    reveal_strlit("sec");
    reveal_strlit("s");
    reveal_strlit("minutes");
    reveal_strlit("minute");
    reveal_strlit("min");
    reveal_strlit("mins");
    reveal_strlit("m");
    reveal_strlit("hours");
    reveal_strlit("hour");
    reveal_strlit("hr");
    reveal_strlit("hrs");
    reveal_strlit("h");
    reveal_strlit("days");
    reveal_strlit("day");
    reveal_strlit("d");
    if w == "days"@ {
        assert(unit_nanos("days"@) == Some((86_400nat * NANOS_PER_SEC) as nat)) by {
            lemma_unit_named_days();
        }
    } else if w == "day"@ {
        assert(unit_nanos("day"@) == Some((86_400nat * NANOS_PER_SEC) as nat)) by {
            lemma_unit_named_day();
        }
    } else if w == "d"@ {
        assert(unit_nanos("d"@) == Some((86_400nat * NANOS_PER_SEC) as nat)) by {
            lemma_unit_named_d();
        }
    }
    assert(forall|i: int| 0 <= i < w.len() ==> is_unit_char(#[trigger] w[i]));
    lemma_count_reading(n, w, 86_400);
}

/// A whole number of weeks, as `humantime` names them.
proof fn lemma_count_of_weeks(n: nat, w: Seq<char>)
    requires
        w == "weeks"@ || w == "week"@ || w == "wk"@ || w == "wks"@ || w == "w"@,
    ensures
        span_bound(decimal(n) + w) == n * 604_800 * NANOS_PER_SEC,
        n * 604_800 <= u64::MAX ==> duration_reading(decimal(n) + w) == humantime_parse(
            decimal(n) + w,
        ),
{
    reveal_strlit("nanos");
    reveal_strlit("nsec");
    reveal_strlit("ns");
    reveal_strlit("usec");
    reveal_strlit("us");
    reveal_strlit("millis");
    reveal_strlit("msec");
    reveal_strlit("ms");
    reveal_strlit("seconds");
    reveal_strlit("second");
    reveal_strlit("secs");
    reveal_strlit("sec");
    reveal_strlit("s");
    reveal_strlit("minutes");
    reveal_strlit("minute");
    reveal_strlit("min");
    reveal_strlit("mins");
    reveal_strlit("m");
    reveal_strlit("hours");
    reveal_strlit("hour");
    reveal_strlit("hr");
    reveal_strlit("hrs");
    reveal_strlit("h");
    reveal_strlit("days");
    reveal_strlit("day");
    reveal_strlit("d");
    reveal_strlit("weeks");
    reveal_strlit("week");
    reveal_strlit("wk");
    reveal_strlit("wks");
    reveal_strlit("w");
    if w == "weeks"@ {
        assert(unit_nanos("weeks"@) == Some((604_800nat * NANOS_PER_SEC) as nat)) by {
            lemma_unit_named_weeks();
        }
    } else if w == "week"@ {
        assert(unit_nanos("week"@) == Some((604_800nat * NANOS_PER_SEC) as nat)) by {
            lemma_unit_named_week();
        }
    } else if w == "wk"@ {
        assert(unit_nanos("wk"@) == Some((604_800nat * NANOS_PER_SEC) as nat)) by {
            lemma_unit_named_wk();
        }
    } else if w == "wks"@ {
        assert(unit_nanos("wks"@) == Some((604_800nat * NANOS_PER_SEC) as nat)) by {
            lemma_unit_named_wks();
        }
    } else if w == "w"@ {
        assert(unit_nanos("w"@) == Some((604_800nat * NANOS_PER_SEC) as nat)) by {
            lemma_unit_named_w();
        }
    }
    assert(forall|i: int| 0 <= i < w.len() ==> is_unit_char(#[trigger] w[i]));
    lemma_count_reading(n, w, 604_800);
}

/// A whole number of months, as `humantime` names them.
proof fn lemma_count_of_months(n: nat, w: Seq<char>)
    requires
        w == "months"@ || w == "month"@ || w == "M"@,
    ensures
        span_bound(decimal(n) + w) == n * 2_630_016 * NANOS_PER_SEC,
        n * 2_630_016 <= u64::MAX ==> duration_reading(decimal(n) + w) == humantime_parse(
            decimal(n) + w,
        ),
{
    reveal_strlit("nanos");
    reveal_strlit("nsec");
    reveal_strlit("ns");
    reveal_strlit("usec");
    reveal_strlit("us");
    reveal_strlit("millis");
    reveal_strlit("msec");
    reveal_strlit("ms");
    reveal_strlit("seconds");
    reveal_strlit("second");
    reveal_strlit("secs");
    reveal_strlit("sec");
    reveal_strlit("s");
    reveal_strlit("minutes");
    reveal_strlit("minute");
    reveal_strlit("min");
    reveal_strlit("mins");
    reveal_strlit("m");
    reveal_strlit("hours");
    reveal_strlit("hour");
    reveal_strlit("hr");
    reveal_strlit("hrs");
    reveal_strlit("h");
    reveal_strlit("days");
    reveal_strlit("day");
    reveal_strlit("d");
    reveal_strlit("weeks");
    reveal_strlit("week");
    reveal_strlit("wk");
    reveal_strlit("wks");
    reveal_strlit("w");
    reveal_strlit("months");
    reveal_strlit("month");
    reveal_strlit("M");
    if w == "months"@ {
        assert(unit_nanos("months"@) == Some((2_630_016nat * NANOS_PER_SEC) as nat)) by {
            lemma_unit_named_months();
        }
    } else if w == "month"@ {
        assert(unit_nanos("month"@) == Some((2_630_016nat * NANOS_PER_SEC) as nat)) by {
            lemma_unit_named_month();
        }
    } else if w == "M"@ {
        assert(unit_nanos("M"@) == Some((2_630_016nat * NANOS_PER_SEC) as nat)) by {
            lemma_unit_named_upper_m();
        }
    }
    assert(forall|i: int| 0 <= i < w.len() ==> is_unit_char(#[trigger] w[i]));
    lemma_count_reading(n, w, 2_630_016);
}

/// A whole number of years, as `humantime` names them.
proof fn lemma_count_of_years(n: nat, w: Seq<char>)
    requires
        w == "years"@ || w == "year"@ || w == "yr"@ || w == "yrs"@ || w == "y"@,
    ensures
        span_bound(decimal(n) + w) == n * 31_557_600 * NANOS_PER_SEC,
        n * 31_557_600 <= u64::MAX ==> duration_reading(decimal(n) + w) == humantime_parse(
            decimal(n) + w,
        ),
{
    reveal_strlit("nanos");
    reveal_strlit("nsec");
    reveal_strlit("ns");
    reveal_strlit("usec");
    reveal_strlit("us");
    reveal_strlit("millis");
    reveal_strlit("msec");
    reveal_strlit("ms");
    reveal_strlit("seconds");
    reveal_strlit("second");
    reveal_strlit("secs");
    reveal_strlit("sec");
    reveal_strlit("s");
    reveal_strlit("minutes");
    reveal_strlit("minute");
    reveal_strlit("min");
    reveal_strlit("mins");
    reveal_strlit("m");
    reveal_strlit("hours");
    reveal_strlit("hour");
    reveal_strlit("hr");
    reveal_strlit("hrs");
    reveal_strlit("h");
    reveal_strlit("days");
    reveal_strlit("day");
    reveal_strlit("d");
    reveal_strlit("weeks");
    reveal_strlit("week");
    reveal_strlit("wk");
    reveal_strlit("wks");
    reveal_strlit("w");
    reveal_strlit("months");
    reveal_strlit("month");
    reveal_strlit("M");
    reveal_strlit("years");
    reveal_strlit("year");
    reveal_strlit("yr");
    reveal_strlit("yrs");
    reveal_strlit("y");
    if w == "years"@ {
        assert(unit_nanos("years"@) == Some((31_557_600nat * NANOS_PER_SEC) as nat)) by {
            lemma_unit_named_years();
        }
    } else if w == "year"@ {
        assert(unit_nanos("year"@) == Some((31_557_600nat * NANOS_PER_SEC) as nat)) by {
            lemma_unit_named_year();
        }
    } else if w == "yr"@ {
        assert(unit_nanos("yr"@) == Some((31_557_600nat * NANOS_PER_SEC) as nat)) by {
            lemma_unit_named_yr();
        }
    } else if w == "yrs"@ {
        assert(unit_nanos("yrs"@) == Some((31_557_600nat * NANOS_PER_SEC) as nat)) by {
            lemma_unit_named_yrs();
        }
    } else if w == "y"@ {
        assert(unit_nanos("y"@) == Some((31_557_600nat * NANOS_PER_SEC) as nat)) by {
            lemma_unit_named_y();
        }
    }
    assert(forall|i: int| 0 <= i < w.len() ==> is_unit_char(#[trigger] w[i]));
    lemma_count_reading(n, w, 31_557_600);
}

/// The length of the unit of each name.
proof fn lemma_unit_named_nanos()
    ensures
        unit_nanos("nanos"@) == Some(1nat),
{
    reveal_strlit("nanos");
}

proof fn lemma_unit_named_nsec()
    ensures
        unit_nanos("nsec"@) == Some(1nat),
{
    reveal_strlit("nanos"); reveal_strlit("nsec");
    assert("nsec"@.len() == 4 && "nanos"@.len() == 5);
}

proof fn lemma_unit_named_ns()
    ensures
        unit_nanos("ns"@) == Some(1nat),
{
    reveal_strlit("nanos"); reveal_strlit("nsec"); reveal_strlit("ns");
    assert("ns"@.len() == 2 && "nanos"@.len() == 5);
    assert("ns"@.len() == 2 && "nsec"@.len() == 4);
}

proof fn lemma_unit_named_usec()
    ensures
        unit_nanos("usec"@) == Some(1_000nat),
{
    reveal_strlit("nanos"); reveal_strlit("nsec"); reveal_strlit("ns"); reveal_strlit("usec");
    assert("usec"@.len() == 4 && "nanos"@.len() == 5);
    assert("usec"@[0] == 'u' && "nsec"@[0] == 'n');
    assert("usec"@.len() == 4 && "ns"@.len() == 2);
}

proof fn lemma_unit_named_us()
    ensures
        unit_nanos("us"@) == Some(1_000nat),
{
    reveal_strlit("nanos"); reveal_strlit("nsec"); reveal_strlit("ns"); reveal_strlit("usec"); reveal_strlit("us");
    assert("us"@.len() == 2 && "nanos"@.len() == 5);
    assert("us"@.len() == 2 && "nsec"@.len() == 4);
    assert("us"@[0] == 'u' && "ns"@[0] == 'n');
    assert("us"@.len() == 2 && "usec"@.len() == 4);
}

proof fn lemma_unit_named_micro_sign()
    ensures
        unit_nanos(seq!['\u{b5}', 's']) == Some(1_000nat),
{
    reveal_strlit("nanos"); reveal_strlit("nsec"); reveal_strlit("ns"); reveal_strlit("usec"); reveal_strlit("us");
    assert(seq!['\u{b5}', 's'].len() == 2 && "nanos"@.len() == 5);
    assert(seq!['\u{b5}', 's'].len() == 2 && "nsec"@.len() == 4);
    assert(seq!['\u{b5}', 's'][0] == '\u{b5}' && "ns"@[0] == 'n');
    assert(seq!['\u{b5}', 's'].len() == 2 && "usec"@.len() == 4);
    assert(seq!['\u{b5}', 's'][0] == '\u{b5}' && "us"@[0] == 'u');
    assert(seq!['\u{b5}', 's'] =~= seq!['\u{b5}', 's']);
}

proof fn lemma_unit_named_millis()
    ensures
        unit_nanos("millis"@) == Some(1_000_000nat),
{
    reveal_strlit("nanos"); reveal_strlit("nsec"); reveal_strlit("ns"); reveal_strlit("usec"); reveal_strlit("us"); reveal_strlit("millis");
    assert("millis"@.len() == 6 && "nanos"@.len() == 5);
    assert("millis"@.len() == 6 && "nsec"@.len() == 4);
    assert("millis"@.len() == 6 && "ns"@.len() == 2);
    assert("millis"@.len() == 6 && "usec"@.len() == 4);
    assert("millis"@.len() == 6 && "us"@.len() == 2);
    assert("millis"@.len() == 6 && seq!['\u{b5}', 's'].len() == 2);
}

proof fn lemma_unit_named_msec()
    ensures
        unit_nanos("msec"@) == Some(1_000_000nat),
{
    reveal_strlit("nanos"); reveal_strlit("nsec"); reveal_strlit("ns"); reveal_strlit("usec"); reveal_strlit("us"); reveal_strlit("millis"); reveal_strlit("msec");
    assert("msec"@.len() == 4 && "nanos"@.len() == 5);
    assert("msec"@[0] == 'm' && "nsec"@[0] == 'n');
    assert("msec"@.len() == 4 && "ns"@.len() == 2);
    assert("msec"@[0] == 'm' && "usec"@[0] == 'u');
    assert("msec"@.len() == 4 && "us"@.len() == 2);
    assert("msec"@.len() == 4 && seq!['\u{b5}', 's'].len() == 2);
    assert("msec"@.len() == 4 && "millis"@.len() == 6);
}

proof fn lemma_unit_named_ms()
    ensures
        unit_nanos("ms"@) == Some(1_000_000nat),
{
    reveal_strlit("nanos"); reveal_strlit("nsec"); reveal_strlit("ns"); reveal_strlit("usec"); reveal_strlit("us"); reveal_strlit("millis"); reveal_strlit("msec"); reveal_strlit("ms");
    assert("ms"@.len() == 2 && "nanos"@.len() == 5);
    assert("ms"@.len() == 2 && "nsec"@.len() == 4);
    assert("ms"@[0] == 'm' && "ns"@[0] == 'n');
    assert("ms"@.len() == 2 && "usec"@.len() == 4);
    assert("ms"@[0] == 'm' && "us"@[0] == 'u');
    assert("ms"@[0] == 'm' && seq!['\u{b5}', 's'][0] == '\u{b5}');
    assert("ms"@.len() == 2 && "millis"@.len() == 6);
    assert("ms"@.len() == 2 && "msec"@.len() == 4);
}

proof fn lemma_unit_named_seconds()
    ensures
        unit_nanos("seconds"@) == Some((1nat * NANOS_PER_SEC) as nat),
{
    reveal_strlit("nanos"); reveal_strlit("nsec"); reveal_strlit("ns"); reveal_strlit("usec"); reveal_strlit("us"); reveal_strlit("millis"); reveal_strlit("msec"); reveal_strlit("ms"); reveal_strlit("seconds");
    assert("seconds"@.len() == 7 && "nanos"@.len() == 5);
    assert("seconds"@.len() == 7 && "nsec"@.len() == 4);
    assert("seconds"@.len() == 7 && "ns"@.len() == 2);
    assert("seconds"@.len() == 7 && "usec"@.len() == 4);
    assert("seconds"@.len() == 7 && "us"@.len() == 2);
    assert("seconds"@.len() == 7 && seq!['\u{b5}', 's'].len() == 2);
    assert("seconds"@.len() == 7 && "millis"@.len() == 6);
    assert("seconds"@.len() == 7 && "msec"@.len() == 4);
    assert("seconds"@.len() == 7 && "ms"@.len() == 2);
}

proof fn lemma_unit_named_second()
    ensures
        unit_nanos("second"@) == Some((1nat * NANOS_PER_SEC) as nat),
{
    reveal_strlit("nanos"); reveal_strlit("nsec"); reveal_strlit("ns"); reveal_strlit("usec"); reveal_strlit("us"); reveal_strlit("millis"); reveal_strlit("msec"); reveal_strlit("ms"); reveal_strlit("seconds"); reveal_strlit("second");
    assert("second"@.len() == 6 && "nanos"@.len() == 5);
    assert("second"@.len() == 6 && "nsec"@.len() == 4);
    assert("second"@.len() == 6 && "ns"@.len() == 2);
    assert("second"@.len() == 6 && "usec"@.len() == 4);
    assert("second"@.len() == 6 && "us"@.len() == 2);
    assert("second"@.len() == 6 && seq!['\u{b5}', 's'].len() == 2);
    assert("second"@[0] == 's' && "millis"@[0] == 'm');
    assert("second"@.len() == 6 && "msec"@.len() == 4);
    assert("second"@.len() == 6 && "ms"@.len() == 2);
    assert("second"@.len() == 6 && "seconds"@.len() == 7);
}

proof fn lemma_unit_named_secs()
    ensures
        unit_nanos("secs"@) == Some((1nat * NANOS_PER_SEC) as nat),
{
    reveal_strlit("nanos"); reveal_strlit("nsec"); reveal_strlit("ns"); reveal_strlit("usec"); reveal_strlit("us"); reveal_strlit("millis"); reveal_strlit("msec"); reveal_strlit("ms"); reveal_strlit("seconds"); reveal_strlit("second"); reveal_strlit("secs");
    assert("secs"@.len() == 4 && "nanos"@.len() == 5);
    assert("secs"@[0] == 's' && "nsec"@[0] == 'n');
    assert("secs"@.len() == 4 && "ns"@.len() == 2);
    assert("secs"@[0] == 's' && "usec"@[0] == 'u');
    assert("secs"@.len() == 4 && "us"@.len() == 2);
    assert("secs"@.len() == 4 && seq!['\u{b5}', 's'].len() == 2);
    assert("secs"@.len() == 4 && "millis"@.len() == 6);
    assert("secs"@[0] == 's' && "msec"@[0] == 'm');
    assert("secs"@.len() == 4 && "ms"@.len() == 2);
    assert("secs"@.len() == 4 && "seconds"@.len() == 7);
    assert("secs"@.len() == 4 && "second"@.len() == 6);
}

proof fn lemma_unit_named_sec()
    ensures
        unit_nanos("sec"@) == Some((1nat * NANOS_PER_SEC) as nat),
{
    reveal_strlit("nanos"); reveal_strlit("nsec"); reveal_strlit("ns"); reveal_strlit("usec"); reveal_strlit("us"); reveal_strlit("millis"); reveal_strlit("msec"); reveal_strlit("ms"); reveal_strlit("seconds"); reveal_strlit("second"); reveal_strlit("secs"); reveal_strlit("sec");
    assert("sec"@.len() == 3 && "nanos"@.len() == 5);
    assert("sec"@.len() == 3 && "nsec"@.len() == 4);
    assert("sec"@.len() == 3 && "ns"@.len() == 2);
    assert("sec"@.len() == 3 && "usec"@.len() == 4);
    assert("sec"@.len() == 3 && "us"@.len() == 2);
    assert("sec"@.len() == 3 && seq!['\u{b5}', 's'].len() == 2);
    assert("sec"@.len() == 3 && "millis"@.len() == 6);
    assert("sec"@.len() == 3 && "msec"@.len() == 4);
    assert("sec"@.len() == 3 && "ms"@.len() == 2);
    assert("sec"@.len() == 3 && "seconds"@.len() == 7);
    assert("sec"@.len() == 3 && "second"@.len() == 6);
    assert("sec"@.len() == 3 && "secs"@.len() == 4);
}

proof fn lemma_unit_named_s()
    ensures
        unit_nanos("s"@) == Some((1nat * NANOS_PER_SEC) as nat),
{
    reveal_strlit("nanos"); reveal_strlit("nsec"); reveal_strlit("ns"); reveal_strlit("usec"); reveal_strlit("us"); reveal_strlit("millis"); reveal_strlit("msec"); reveal_strlit("ms"); reveal_strlit("seconds"); reveal_strlit("second"); reveal_strlit("secs"); reveal_strlit("sec"); reveal_strlit("s");
    assert("s"@.len() == 1 && "nanos"@.len() == 5);
    assert("s"@.len() == 1 && "nsec"@.len() == 4);
    assert("s"@.len() == 1 && "ns"@.len() == 2);
    assert("s"@.len() == 1 && "usec"@.len() == 4);
    assert("s"@.len() == 1 && "us"@.len() == 2);
    assert("s"@.len() == 1 && seq!['\u{b5}', 's'].len() == 2);
    assert("s"@.len() == 1 && "millis"@.len() == 6);
    assert("s"@.len() == 1 && "msec"@.len() == 4);
    assert("s"@.len() == 1 && "ms"@.len() == 2);
    assert("s"@.len() == 1 && "seconds"@.len() == 7);
    assert("s"@.len() == 1 && "second"@.len() == 6);
    assert("s"@.len() == 1 && "secs"@.len() == 4);
    assert("s"@.len() == 1 && "sec"@.len() == 3);
}

proof fn lemma_unit_named_minutes()
    ensures
        unit_nanos("minutes"@) == Some((60nat * NANOS_PER_SEC) as nat),
{
    reveal_strlit("nanos"); reveal_strlit("nsec"); reveal_strlit("ns"); reveal_strlit("usec"); reveal_strlit("us"); reveal_strlit("millis"); reveal_strlit("msec"); reveal_strlit("ms"); reveal_strlit("seconds"); reveal_strlit("second"); reveal_strlit("secs"); reveal_strlit("sec"); reveal_strlit("s"); reveal_strlit("minutes");
    assert("minutes"@.len() == 7 && "nanos"@.len() == 5);
    assert("minutes"@.len() == 7 && "nsec"@.len() == 4);
    assert("minutes"@.len() == 7 && "ns"@.len() == 2);
    assert("minutes"@.len() == 7 && "usec"@.len() == 4);
    assert("minutes"@.len() == 7 && "us"@.len() == 2);
    assert("minutes"@.len() == 7 && seq!['\u{b5}', 's'].len() == 2);
    assert("minutes"@.len() == 7 && "millis"@.len() == 6);
    assert("minutes"@.len() == 7 && "msec"@.len() == 4);
    assert("minutes"@.len() == 7 && "ms"@.len() == 2);
    assert("minutes"@[0] == 'm' && "seconds"@[0] == 's');
    assert("minutes"@.len() == 7 && "second"@.len() == 6);
    assert("minutes"@.len() == 7 && "secs"@.len() == 4);
    assert("minutes"@.len() == 7 && "sec"@.len() == 3);
    assert("minutes"@.len() == 7 && "s"@.len() == 1);
}

proof fn lemma_unit_named_minute()
    ensures
        unit_nanos("minute"@) == Some((60nat * NANOS_PER_SEC) as nat),
{
    reveal_strlit("nanos"); reveal_strlit("nsec"); reveal_strlit("ns"); reveal_strlit("usec"); reveal_strlit("us"); reveal_strlit("millis"); reveal_strlit("msec"); reveal_strlit("ms"); reveal_strlit("seconds"); reveal_strlit("second"); reveal_strlit("secs"); reveal_strlit("sec"); reveal_strlit("s"); reveal_strlit("minutes"); reveal_strlit("minute");
    assert("minute"@.len() == 6 && "nanos"@.len() == 5);
    assert("minute"@.len() == 6 && "nsec"@.len() == 4);
    assert("minute"@.len() == 6 && "ns"@.len() == 2);
    assert("minute"@.len() == 6 && "usec"@.len() == 4);
    assert("minute"@.len() == 6 && "us"@.len() == 2);
    assert("minute"@.len() == 6 && seq!['\u{b5}', 's'].len() == 2);
    assert("minute"@[2] == 'n' && "millis"@[2] == 'l');
    assert("minute"@.len() == 6 && "msec"@.len() == 4);
    assert("minute"@.len() == 6 && "ms"@.len() == 2);
    assert("minute"@.len() == 6 && "seconds"@.len() == 7);
    assert("minute"@[0] == 'm' && "second"@[0] == 's');
    assert("minute"@.len() == 6 && "secs"@.len() == 4);
    assert("minute"@.len() == 6 && "sec"@.len() == 3);
    assert("minute"@.len() == 6 && "s"@.len() == 1);
    assert("minute"@.len() == 6 && "minutes"@.len() == 7);
}

proof fn lemma_unit_named_min()
    ensures
        unit_nanos("min"@) == Some((60nat * NANOS_PER_SEC) as nat),
{
    reveal_strlit("nanos"); reveal_strlit("nsec"); reveal_strlit("ns"); reveal_strlit("usec"); reveal_strlit("us"); reveal_strlit("millis"); reveal_strlit("msec"); reveal_strlit("ms"); reveal_strlit("seconds"); reveal_strlit("second"); reveal_strlit("secs"); reveal_strlit("sec"); reveal_strlit("s"); reveal_strlit("minutes"); reveal_strlit("minute"); reveal_strlit("min");
    assert("min"@.len() == 3 && "nanos"@.len() == 5);
    assert("min"@.len() == 3 && "nsec"@.len() == 4);
    assert("min"@.len() == 3 && "ns"@.len() == 2);
    assert("min"@.len() == 3 && "usec"@.len() == 4);
    assert("min"@.len() == 3 && "us"@.len() == 2);
    assert("min"@.len() == 3 && seq!['\u{b5}', 's'].len() == 2);
    assert("min"@.len() == 3 && "millis"@.len() == 6);
    assert("min"@.len() == 3 && "msec"@.len() == 4);
    assert("min"@.len() == 3 && "ms"@.len() == 2);
    assert("min"@.len() == 3 && "seconds"@.len() == 7);
    assert("min"@.len() == 3 && "second"@.len() == 6);
    assert("min"@.len() == 3 && "secs"@.len() == 4);
    assert("min"@[0] == 'm' && "sec"@[0] == 's');
    assert("min"@.len() == 3 && "s"@.len() == 1);
    assert("min"@.len() == 3 && "minutes"@.len() == 7);
    assert("min"@.len() == 3 && "minute"@.len() == 6);
}

proof fn lemma_unit_named_mins()
    ensures
        unit_nanos("mins"@) == Some((60nat * NANOS_PER_SEC) as nat),
{
    reveal_strlit("nanos"); reveal_strlit("nsec"); reveal_strlit("ns"); reveal_strlit("usec"); reveal_strlit("us"); reveal_strlit("millis"); reveal_strlit("msec"); reveal_strlit("ms"); reveal_strlit("seconds"); reveal_strlit("second"); reveal_strlit("secs"); reveal_strlit("sec"); reveal_strlit("s"); reveal_strlit("minutes"); reveal_strlit("minute"); reveal_strlit("min"); reveal_strlit("mins");
    assert("mins"@.len() == 4 && "nanos"@.len() == 5);
    assert("mins"@[0] == 'm' && "nsec"@[0] == 'n');
    assert("mins"@.len() == 4 && "ns"@.len() == 2);
    assert("mins"@[0] == 'm' && "usec"@[0] == 'u');
    assert("mins"@.len() == 4 && "us"@.len() == 2);
    assert("mins"@.len() == 4 && seq!['\u{b5}', 's'].len() == 2);
    assert("mins"@.len() == 4 && "millis"@.len() == 6);
    assert("mins"@[1] == 'i' && "msec"@[1] == 's');
    assert("mins"@.len() == 4 && "ms"@.len() == 2);
    assert("mins"@.len() == 4 && "seconds"@.len() == 7);
    assert("mins"@.len() == 4 && "second"@.len() == 6);
    assert("mins"@[0] == 'm' && "secs"@[0] == 's');
    assert("mins"@.len() == 4 && "sec"@.len() == 3);
    assert("mins"@.len() == 4 && "s"@.len() == 1);
    assert("mins"@.len() == 4 && "minutes"@.len() == 7);
    assert("mins"@.len() == 4 && "minute"@.len() == 6);
    assert("mins"@.len() == 4 && "min"@.len() == 3);
}

proof fn lemma_unit_named_m()
    ensures
        unit_nanos("m"@) == Some((60nat * NANOS_PER_SEC) as nat),
{
    reveal_strlit("nanos"); reveal_strlit("nsec"); reveal_strlit("ns"); reveal_strlit("usec"); reveal_strlit("us"); reveal_strlit("millis"); reveal_strlit("msec"); reveal_strlit("ms"); reveal_strlit("seconds"); reveal_strlit("second"); reveal_strlit("secs"); reveal_strlit("sec"); reveal_strlit("s"); reveal_strlit("minutes"); reveal_strlit("minute"); reveal_strlit("min"); reveal_strlit("mins"); reveal_strlit("m");
    assert("m"@.len() == 1 && "nanos"@.len() == 5);
    assert("m"@.len() == 1 && "nsec"@.len() == 4);
    assert("m"@.len() == 1 && "ns"@.len() == 2);
    assert("m"@.len() == 1 && "usec"@.len() == 4);
    assert("m"@.len() == 1 && "us"@.len() == 2);
    assert("m"@.len() == 1 && seq!['\u{b5}', 's'].len() == 2);
    assert("m"@.len() == 1 && "millis"@.len() == 6);
    assert("m"@.len() == 1 && "msec"@.len() == 4);
    assert("m"@.len() == 1 && "ms"@.len() == 2);
    assert("m"@.len() == 1 && "seconds"@.len() == 7);
    assert("m"@.len() == 1 && "second"@.len() == 6);
    assert("m"@.len() == 1 && "secs"@.len() == 4);
    assert("m"@.len() == 1 && "sec"@.len() == 3);
    assert("m"@[0] == 'm' && "s"@[0] == 's');
    assert("m"@.len() == 1 && "minutes"@.len() == 7);
    assert("m"@.len() == 1 && "minute"@.len() == 6);
    assert("m"@.len() == 1 && "min"@.len() == 3);
    assert("m"@.len() == 1 && "mins"@.len() == 4);
}

proof fn lemma_unit_named_hours()
    ensures
        unit_nanos("hours"@) == Some((3_600nat * NANOS_PER_SEC) as nat),
{
    reveal_strlit("nanos"); reveal_strlit("nsec"); reveal_strlit("ns"); reveal_strlit("usec"); reveal_strlit("us"); reveal_strlit("millis"); reveal_strlit("msec"); reveal_strlit("ms"); reveal_strlit("seconds"); reveal_strlit("second"); reveal_strlit("secs"); reveal_strlit("sec"); reveal_strlit("s"); reveal_strlit("minutes"); reveal_strlit("minute"); reveal_strlit("min"); reveal_strlit("mins"); reveal_strlit("m"); reveal_strlit("hours");
    assert("hours"@[0] == 'h' && "nanos"@[0] == 'n');
    assert("hours"@.len() == 5 && "nsec"@.len() == 4);
    assert("hours"@.len() == 5 && "ns"@.len() == 2);
    assert("hours"@.len() == 5 && "usec"@.len() == 4);
    assert("hours"@.len() == 5 && "us"@.len() == 2);
    assert("hours"@.len() == 5 && seq!['\u{b5}', 's'].len() == 2);
    assert("hours"@.len() == 5 && "millis"@.len() == 6);
    assert("hours"@.len() == 5 && "msec"@.len() == 4);
    assert("hours"@.len() == 5 && "ms"@.len() == 2);
    assert("hours"@.len() == 5 && "seconds"@.len() == 7);
    assert("hours"@.len() == 5 && "second"@.len() == 6);
    assert("hours"@.len() == 5 && "secs"@.len() == 4);
    assert("hours"@.len() == 5 && "sec"@.len() == 3);
    assert("hours"@.len() == 5 && "s"@.len() == 1);
    assert("hours"@.len() == 5 && "minutes"@.len() == 7);
    assert("hours"@.len() == 5 && "minute"@.len() == 6);
    assert("hours"@.len() == 5 && "min"@.len() == 3);
    assert("hours"@.len() == 5 && "mins"@.len() == 4);
    assert("hours"@.len() == 5 && "m"@.len() == 1);
}

proof fn lemma_unit_named_hour()
    ensures
        unit_nanos("hour"@) == Some((3_600nat * NANOS_PER_SEC) as nat),
{
    reveal_strlit("nanos"); reveal_strlit("nsec"); reveal_strlit("ns"); reveal_strlit("usec"); reveal_strlit("us"); reveal_strlit("millis"); reveal_strlit("msec"); reveal_strlit("ms"); reveal_strlit("seconds"); reveal_strlit("second"); reveal_strlit("secs"); reveal_strlit("sec"); reveal_strlit("s"); reveal_strlit("minutes"); reveal_strlit("minute"); reveal_strlit("min"); reveal_strlit("mins"); reveal_strlit("m"); reveal_strlit("hours"); reveal_strlit("hour");
    assert("hour"@.len() == 4 && "nanos"@.len() == 5);
    assert("hour"@[0] == 'h' && "nsec"@[0] == 'n');
    assert("hour"@.len() == 4 && "ns"@.len() == 2);
    assert("hour"@[0] == 'h' && "usec"@[0] == 'u');
    assert("hour"@.len() == 4 && "us"@.len() == 2);
    assert("hour"@.len() == 4 && seq!['\u{b5}', 's'].len() == 2);
    assert("hour"@.len() == 4 && "millis"@.len() == 6);
    assert("hour"@[0] == 'h' && "msec"@[0] == 'm');
    assert("hour"@.len() == 4 && "ms"@.len() == 2);
    assert("hour"@.len() == 4 && "seconds"@.len() == 7);
    assert("hour"@.len() == 4 && "second"@.len() == 6);
    assert("hour"@[0] == 'h' && "secs"@[0] == 's');
    assert("hour"@.len() == 4 && "sec"@.len() == 3);
    assert("hour"@.len() == 4 && "s"@.len() == 1);
    assert("hour"@.len() == 4 && "minutes"@.len() == 7);
    assert("hour"@.len() == 4 && "minute"@.len() == 6);
    assert("hour"@.len() == 4 && "min"@.len() == 3);
    assert("hour"@[0] == 'h' && "mins"@[0] == 'm');
    assert("hour"@.len() == 4 && "m"@.len() == 1);
    assert("hour"@.len() == 4 && "hours"@.len() == 5);
}

proof fn lemma_unit_named_hr()
    ensures
        unit_nanos("hr"@) == Some((3_600nat * NANOS_PER_SEC) as nat),
{
    reveal_strlit("nanos"); reveal_strlit("nsec"); reveal_strlit("ns"); reveal_strlit("usec"); reveal_strlit("us"); reveal_strlit("millis"); reveal_strlit("msec"); reveal_strlit("ms"); reveal_strlit("seconds"); reveal_strlit("second"); reveal_strlit("secs"); reveal_strlit("sec"); reveal_strlit("s"); reveal_strlit("minutes"); reveal_strlit("minute"); reveal_strlit("min"); reveal_strlit("mins"); reveal_strlit("m"); reveal_strlit("hours"); reveal_strlit("hour"); reveal_strlit("hr");
    assert("hr"@.len() == 2 && "nanos"@.len() == 5);
    assert("hr"@.len() == 2 && "nsec"@.len() == 4);
    assert("hr"@[0] == 'h' && "ns"@[0] == 'n');
    assert("hr"@.len() == 2 && "usec"@.len() == 4);
    assert("hr"@[0] == 'h' && "us"@[0] == 'u');
    assert("hr"@[0] == 'h' && seq!['\u{b5}', 's'][0] == '\u{b5}');
    assert("hr"@.len() == 2 && "millis"@.len() == 6);
    assert("hr"@.len() == 2 && "msec"@.len() == 4);
    assert("hr"@[0] == 'h' && "ms"@[0] == 'm');
    assert("hr"@.len() == 2 && "seconds"@.len() == 7);
    assert("hr"@.len() == 2 && "second"@.len() == 6);
    assert("hr"@.len() == 2 && "secs"@.len() == 4);
    assert("hr"@.len() == 2 && "sec"@.len() == 3);
    assert("hr"@.len() == 2 && "s"@.len() == 1);
    assert("hr"@.len() == 2 && "minutes"@.len() == 7);
    assert("hr"@.len() == 2 && "minute"@.len() == 6);
    assert("hr"@.len() == 2 && "min"@.len() == 3);
    assert("hr"@.len() == 2 && "mins"@.len() == 4);
    assert("hr"@.len() == 2 && "m"@.len() == 1);
    assert("hr"@.len() == 2 && "hours"@.len() == 5);
    assert("hr"@.len() == 2 && "hour"@.len() == 4);
}

proof fn lemma_unit_named_hrs()
    ensures
        unit_nanos("hrs"@) == Some((3_600nat * NANOS_PER_SEC) as nat),
{
    reveal_strlit("nanos"); reveal_strlit("nsec"); reveal_strlit("ns"); reveal_strlit("usec"); reveal_strlit("us"); reveal_strlit("millis"); reveal_strlit("msec"); reveal_strlit("ms"); reveal_strlit("seconds"); reveal_strlit("second"); reveal_strlit("secs"); reveal_strlit("sec"); reveal_strlit("s"); reveal_strlit("minutes"); reveal_strlit("minute"); reveal_strlit("min"); reveal_strlit("mins"); reveal_strlit("m"); reveal_strlit("hours"); reveal_strlit("hour"); reveal_strlit("hr"); reveal_strlit("hrs");
    assert("hrs"@.len() == 3 && "nanos"@.len() == 5);
    assert("hrs"@.len() == 3 && "nsec"@.len() == 4);
    assert("hrs"@.len() == 3 && "ns"@.len() == 2);
    assert("hrs"@.len() == 3 && "usec"@.len() == 4);
    assert("hrs"@.len() == 3 && "us"@.len() == 2);
    assert("hrs"@.len() == 3 && seq!['\u{b5}', 's'].len() == 2);
    assert("hrs"@.len() == 3 && "millis"@.len() == 6);
    assert("hrs"@.len() == 3 && "msec"@.len() == 4);
    assert("hrs"@.len() == 3 && "ms"@.len() == 2);
    assert("hrs"@.len() == 3 && "seconds"@.len() == 7);
    assert("hrs"@.len() == 3 && "second"@.len() == 6);
    assert("hrs"@.len() == 3 && "secs"@.len() == 4);
    assert("hrs"@[0] == 'h' && "sec"@[0] == 's');
    assert("hrs"@.len() == 3 && "s"@.len() == 1);
    assert("hrs"@.len() == 3 && "minutes"@.len() == 7);
    assert("hrs"@.len() == 3 && "minute"@.len() == 6);
    assert("hrs"@[0] == 'h' && "min"@[0] == 'm');
    assert("hrs"@.len() == 3 && "mins"@.len() == 4);
    assert("hrs"@.len() == 3 && "m"@.len() == 1);
    assert("hrs"@.len() == 3 && "hours"@.len() == 5);
    assert("hrs"@.len() == 3 && "hour"@.len() == 4);
    assert("hrs"@.len() == 3 && "hr"@.len() == 2);
}

proof fn lemma_unit_named_h()
    ensures
        unit_nanos("h"@) == Some((3_600nat * NANOS_PER_SEC) as nat),
{
    reveal_strlit("nanos"); reveal_strlit("nsec"); reveal_strlit("ns"); reveal_strlit("usec"); reveal_strlit("us"); reveal_strlit("millis"); reveal_strlit("msec"); reveal_strlit("ms"); reveal_strlit("seconds"); reveal_strlit("second"); reveal_strlit("secs"); reveal_strlit("sec"); reveal_strlit("s"); reveal_strlit("minutes"); reveal_strlit("minute"); reveal_strlit("min"); reveal_strlit("mins"); reveal_strlit("m"); reveal_strlit("hours"); reveal_strlit("hour"); reveal_strlit("hr"); reveal_strlit("hrs"); reveal_strlit("h");
    assert("h"@.len() == 1 && "nanos"@.len() == 5);
    assert("h"@.len() == 1 && "nsec"@.len() == 4);
    assert("h"@.len() == 1 && "ns"@.len() == 2);
    assert("h"@.len() == 1 && "usec"@.len() == 4);
    assert("h"@.len() == 1 && "us"@.len() == 2);
    assert("h"@.len() == 1 && seq!['\u{b5}', 's'].len() == 2);
    assert("h"@.len() == 1 && "millis"@.len() == 6);
    assert("h"@.len() == 1 && "msec"@.len() == 4);
    assert("h"@.len() == 1 && "ms"@.len() == 2);
    assert("h"@.len() == 1 && "seconds"@.len() == 7);
    assert("h"@.len() == 1 && "second"@.len() == 6);
    assert("h"@.len() == 1 && "secs"@.len() == 4);
    assert("h"@.len() == 1 && "sec"@.len() == 3);
    assert("h"@[0] == 'h' && "s"@[0] == 's');
    assert("h"@.len() == 1 && "minutes"@.len() == 7);
    assert("h"@.len() == 1 && "minute"@.len() == 6);
    assert("h"@.len() == 1 && "min"@.len() == 3);
    assert("h"@.len() == 1 && "mins"@.len() == 4);
    assert("h"@[0] == 'h' && "m"@[0] == 'm');
    assert("h"@.len() == 1 && "hours"@.len() == 5);
    assert("h"@.len() == 1 && "hour"@.len() == 4);
    assert("h"@.len() == 1 && "hr"@.len() == 2);
    assert("h"@.len() == 1 && "hrs"@.len() == 3);
}

proof fn lemma_unit_named_days()
    ensures
        unit_nanos("days"@) == Some((86_400nat * NANOS_PER_SEC) as nat),
{
    reveal_strlit("nanos"); reveal_strlit("nsec"); reveal_strlit("ns"); reveal_strlit("usec"); reveal_strlit("us"); reveal_strlit("millis"); reveal_strlit("msec"); reveal_strlit("ms"); reveal_strlit("seconds"); reveal_strlit("second"); reveal_strlit("secs"); reveal_strlit("sec"); reveal_strlit("s"); reveal_strlit("minutes"); reveal_strlit("minute"); reveal_strlit("min"); reveal_strlit("mins"); reveal_strlit("m"); reveal_strlit("hours"); reveal_strlit("hour"); reveal_strlit("hr"); reveal_strlit("hrs"); reveal_strlit("h"); reveal_strlit("days");
    assert("days"@.len() == 4 && "nanos"@.len() == 5);
    assert("days"@[0] == 'd' && "nsec"@[0] == 'n');
    assert("days"@.len() == 4 && "ns"@.len() == 2);
    assert("days"@[0] == 'd' && "usec"@[0] == 'u');
    assert("days"@.len() == 4 && "us"@.len() == 2);
    assert("days"@.len() == 4 && seq!['\u{b5}', 's'].len() == 2);
    assert("days"@.len() == 4 && "millis"@.len() == 6);
    assert("days"@[0] == 'd' && "msec"@[0] == 'm');
    assert("days"@.len() == 4 && "ms"@.len() == 2);
    assert("days"@.len() == 4 && "seconds"@.len() == 7);
    assert("days"@.len() == 4 && "second"@.len() == 6);
    assert("days"@[0] == 'd' && "secs"@[0] == 's');
    assert("days"@.len() == 4 && "sec"@.len() == 3);
    assert("days"@.len() == 4 && "s"@.len() == 1);
    assert("days"@.len() == 4 && "minutes"@.len() == 7);
    assert("days"@.len() == 4 && "minute"@.len() == 6);
    assert("days"@.len() == 4 && "min"@.len() == 3);
    assert("days"@[0] == 'd' && "mins"@[0] == 'm');
    assert("days"@.len() == 4 && "m"@.len() == 1);
    assert("days"@.len() == 4 && "hours"@.len() == 5);
    assert("days"@[0] == 'd' && "hour"@[0] == 'h');
    assert("days"@.len() == 4 && "hr"@.len() == 2);
    assert("days"@.len() == 4 && "hrs"@.len() == 3);
    assert("days"@.len() == 4 && "h"@.len() == 1);
}

proof fn lemma_unit_named_day()
    ensures
        unit_nanos("day"@) == Some((86_400nat * NANOS_PER_SEC) as nat),
{
    reveal_strlit("nanos"); reveal_strlit("nsec"); reveal_strlit("ns"); reveal_strlit("usec"); reveal_strlit("us"); reveal_strlit("millis"); reveal_strlit("msec"); reveal_strlit("ms"); reveal_strlit("seconds"); reveal_strlit("second"); reveal_strlit("secs"); reveal_strlit("sec"); reveal_strlit("s"); reveal_strlit("minutes"); reveal_strlit("minute"); reveal_strlit("min"); reveal_strlit("mins"); reveal_strlit("m"); reveal_strlit("hours"); reveal_strlit("hour"); reveal_strlit("hr"); reveal_strlit("hrs"); reveal_strlit("h"); reveal_strlit("days"); reveal_strlit("day");
    assert("day"@.len() == 3 && "nanos"@.len() == 5);
    assert("day"@.len() == 3 && "nsec"@.len() == 4);
    assert("day"@.len() == 3 && "ns"@.len() == 2);
    assert("day"@.len() == 3 && "usec"@.len() == 4);
    assert("day"@.len() == 3 && "us"@.len() == 2);
    assert("day"@.len() == 3 && seq!['\u{b5}', 's'].len() == 2);
    assert("day"@.len() == 3 && "millis"@.len() == 6);
    assert("day"@.len() == 3 && "msec"@.len() == 4);
    assert("day"@.len() == 3 && "ms"@.len() == 2);
    assert("day"@.len() == 3 && "seconds"@.len() == 7);
    assert("day"@.len() == 3 && "second"@.len() == 6);
    assert("day"@.len() == 3 && "secs"@.len() == 4);
    assert("day"@[0] == 'd' && "sec"@[0] == 's');
    assert("day"@.len() == 3 && "s"@.len() == 1);
    assert("day"@.len() == 3 && "minutes"@.len() == 7);
    assert("day"@.len() == 3 && "minute"@.len() == 6);
    assert("day"@[0] == 'd' && "min"@[0] == 'm');
    assert("day"@.len() == 3 && "mins"@.len() == 4);
    assert("day"@.len() == 3 && "m"@.len() == 1);
    assert("day"@.len() == 3 && "hours"@.len() == 5);
    assert("day"@.len() == 3 && "hour"@.len() == 4);
    assert("day"@.len() == 3 && "hr"@.len() == 2);
    assert("day"@[0] == 'd' && "hrs"@[0] == 'h');
    assert("day"@.len() == 3 && "h"@.len() == 1);
    assert("day"@.len() == 3 && "days"@.len() == 4);
}

proof fn lemma_unit_named_d()
    ensures
        unit_nanos("d"@) == Some((86_400nat * NANOS_PER_SEC) as nat),
{
    reveal_strlit("nanos"); reveal_strlit("nsec"); reveal_strlit("ns"); reveal_strlit("usec"); reveal_strlit("us"); reveal_strlit("millis"); reveal_strlit("msec"); reveal_strlit("ms"); reveal_strlit("seconds"); reveal_strlit("second"); reveal_strlit("secs"); reveal_strlit("sec"); reveal_strlit("s"); reveal_strlit("minutes"); reveal_strlit("minute"); reveal_strlit("min"); reveal_strlit("mins"); reveal_strlit("m"); reveal_strlit("hours"); reveal_strlit("hour"); reveal_strlit("hr"); reveal_strlit("hrs"); reveal_strlit("h"); reveal_strlit("days"); reveal_strlit("day"); reveal_strlit("d");
    assert("d"@.len() == 1 && "nanos"@.len() == 5);
    assert("d"@.len() == 1 && "nsec"@.len() == 4);
    assert("d"@.len() == 1 && "ns"@.len() == 2);
    assert("d"@.len() == 1 && "usec"@.len() == 4);
    assert("d"@.len() == 1 && "us"@.len() == 2);
    assert("d"@.len() == 1 && seq!['\u{b5}', 's'].len() == 2);
    assert("d"@.len() == 1 && "millis"@.len() == 6);
    assert("d"@.len() == 1 && "msec"@.len() == 4);
    assert("d"@.len() == 1 && "ms"@.len() == 2);
    assert("d"@.len() == 1 && "seconds"@.len() == 7);
    assert("d"@.len() == 1 && "second"@.len() == 6);
    assert("d"@.len() == 1 && "secs"@.len() == 4);
    assert("d"@.len() == 1 && "sec"@.len() == 3);
    assert("d"@[0] == 'd' && "s"@[0] == 's');
    assert("d"@.len() == 1 && "minutes"@.len() == 7);
    assert("d"@.len() == 1 && "minute"@.len() == 6);
    assert("d"@.len() == 1 && "min"@.len() == 3);
    assert("d"@.len() == 1 && "mins"@.len() == 4);
    assert("d"@[0] == 'd' && "m"@[0] == 'm');
    assert("d"@.len() == 1 && "hours"@.len() == 5);
    assert("d"@.len() == 1 && "hour"@.len() == 4);
    assert("d"@.len() == 1 && "hr"@.len() == 2);
    assert("d"@.len() == 1 && "hrs"@.len() == 3);
    assert("d"@[0] == 'd' && "h"@[0] == 'h');
    assert("d"@.len() == 1 && "days"@.len() == 4);
    assert("d"@.len() == 1 && "day"@.len() == 3);
}

proof fn lemma_unit_named_weeks()
    ensures
        unit_nanos("weeks"@) == Some((604_800nat * NANOS_PER_SEC) as nat),
{
    reveal_strlit("nanos"); reveal_strlit("nsec"); reveal_strlit("ns"); reveal_strlit("usec"); reveal_strlit("us"); reveal_strlit("millis"); reveal_strlit("msec"); reveal_strlit("ms"); reveal_strlit("seconds"); reveal_strlit("second"); reveal_strlit("secs"); reveal_strlit("sec"); reveal_strlit("s"); reveal_strlit("minutes"); reveal_strlit("minute"); reveal_strlit("min"); reveal_strlit("mins"); reveal_strlit("m"); reveal_strlit("hours"); reveal_strlit("hour"); reveal_strlit("hr"); reveal_strlit("hrs"); reveal_strlit("h"); reveal_strlit("days"); reveal_strlit("day"); reveal_strlit("d"); reveal_strlit("weeks");
    assert("weeks"@[0] == 'w' && "nanos"@[0] == 'n');
    assert("weeks"@.len() == 5 && "nsec"@.len() == 4);
    assert("weeks"@.len() == 5 && "ns"@.len() == 2);
    assert("weeks"@.len() == 5 && "usec"@.len() == 4);
    assert("weeks"@.len() == 5 && "us"@.len() == 2);
    assert("weeks"@.len() == 5 && seq!['\u{b5}', 's'].len() == 2);
    assert("weeks"@.len() == 5 && "millis"@.len() == 6);
    assert("weeks"@.len() == 5 && "msec"@.len() == 4);
    assert("weeks"@.len() == 5 && "ms"@.len() == 2);
    assert("weeks"@.len() == 5 && "seconds"@.len() == 7);
    assert("weeks"@.len() == 5 && "second"@.len() == 6);
    assert("weeks"@.len() == 5 && "secs"@.len() == 4);
    assert("weeks"@.len() == 5 && "sec"@.len() == 3);
    assert("weeks"@.len() == 5 && "s"@.len() == 1);
    assert("weeks"@.len() == 5 && "minutes"@.len() == 7);
    assert("weeks"@.len() == 5 && "minute"@.len() == 6);
    assert("weeks"@.len() == 5 && "min"@.len() == 3);
    assert("weeks"@.len() == 5 && "mins"@.len() == 4);
    assert("weeks"@.len() == 5 && "m"@.len() == 1);
    assert("weeks"@[0] == 'w' && "hours"@[0] == 'h');
    assert("weeks"@.len() == 5 && "hour"@.len() == 4);
    assert("weeks"@.len() == 5 && "hr"@.len() == 2);
    assert("weeks"@.len() == 5 && "hrs"@.len() == 3);
    assert("weeks"@.len() == 5 && "h"@.len() == 1);
    assert("weeks"@.len() == 5 && "days"@.len() == 4);
    assert("weeks"@.len() == 5 && "day"@.len() == 3);
    assert("weeks"@.len() == 5 && "d"@.len() == 1);
}

proof fn lemma_unit_named_week()
    ensures
        unit_nanos("week"@) == Some((604_800nat * NANOS_PER_SEC) as nat),
{
    reveal_strlit("nanos"); reveal_strlit("nsec"); reveal_strlit("ns"); reveal_strlit("usec"); reveal_strlit("us"); reveal_strlit("millis"); reveal_strlit("msec"); reveal_strlit("ms"); reveal_strlit("seconds"); reveal_strlit("second"); reveal_strlit("secs"); reveal_strlit("sec"); reveal_strlit("s"); reveal_strlit("minutes"); reveal_strlit("minute"); reveal_strlit("min"); reveal_strlit("mins"); reveal_strlit("m"); reveal_strlit("hours"); reveal_strlit("hour"); reveal_strlit("hr"); reveal_strlit("hrs"); reveal_strlit("h"); reveal_strlit("days"); reveal_strlit("day"); reveal_strlit("d"); reveal_strlit("weeks"); reveal_strlit("week");
    assert("week"@.len() == 4 && "nanos"@.len() == 5);
    assert("week"@[0] == 'w' && "nsec"@[0] == 'n');
    assert("week"@.len() == 4 && "ns"@.len() == 2);
    assert("week"@[0] == 'w' && "usec"@[0] == 'u');
    assert("week"@.len() == 4 && "us"@.len() == 2);
    assert("week"@.len() == 4 && seq!['\u{b5}', 's'].len() == 2);
    assert("week"@.len() == 4 && "millis"@.len() == 6);
    assert("week"@[0] == 'w' && "msec"@[0] == 'm');
    assert("week"@.len() == 4 && "ms"@.len() == 2);
    assert("week"@.len() == 4 && "seconds"@.len() == 7);
    assert("week"@.len() == 4 && "second"@.len() == 6);
    assert("week"@[0] == 'w' && "secs"@[0] == 's');
    assert("week"@.len() == 4 && "sec"@.len() == 3);
    assert("week"@.len() == 4 && "s"@.len() == 1);
    assert("week"@.len() == 4 && "minutes"@.len() == 7);
    assert("week"@.len() == 4 && "minute"@.len() == 6);
    assert("week"@.len() == 4 && "min"@.len() == 3);
    assert("week"@[0] == 'w' && "mins"@[0] == 'm');
    assert("week"@.len() == 4 && "m"@.len() == 1);
    assert("week"@.len() == 4 && "hours"@.len() == 5);
    assert("week"@[0] == 'w' && "hour"@[0] == 'h');
    assert("week"@.len() == 4 && "hr"@.len() == 2);
    assert("week"@.len() == 4 && "hrs"@.len() == 3);
    assert("week"@.len() == 4 && "h"@.len() == 1);
    assert("week"@[0] == 'w' && "days"@[0] == 'd');
    assert("week"@.len() == 4 && "day"@.len() == 3);
    assert("week"@.len() == 4 && "d"@.len() == 1);
    assert("week"@.len() == 4 && "weeks"@.len() == 5);
}

proof fn lemma_unit_named_wk()
    ensures
        unit_nanos("wk"@) == Some((604_800nat * NANOS_PER_SEC) as nat),
{
    reveal_strlit("nanos"); reveal_strlit("nsec"); reveal_strlit("ns"); reveal_strlit("usec"); reveal_strlit("us"); reveal_strlit("millis"); reveal_strlit("msec"); reveal_strlit("ms"); reveal_strlit("seconds"); reveal_strlit("second"); reveal_strlit("secs"); reveal_strlit("sec"); reveal_strlit("s"); reveal_strlit("minutes"); reveal_strlit("minute"); reveal_strlit("min"); reveal_strlit("mins"); reveal_strlit("m"); reveal_strlit("hours"); reveal_strlit("hour"); reveal_strlit("hr"); reveal_strlit("hrs"); reveal_strlit("h"); reveal_strlit("days"); reveal_strlit("day"); reveal_strlit("d"); reveal_strlit("weeks"); reveal_strlit("week"); reveal_strlit("wk");
    assert("wk"@.len() == 2 && "nanos"@.len() == 5);
    assert("wk"@.len() == 2 && "nsec"@.len() == 4);
    assert("wk"@[0] == 'w' && "ns"@[0] == 'n');
    assert("wk"@.len() == 2 && "usec"@.len() == 4);
    assert("wk"@[0] == 'w' && "us"@[0] == 'u');
    assert("wk"@[0] == 'w' && seq!['\u{b5}', 's'][0] == '\u{b5}');
    assert("wk"@.len() == 2 && "millis"@.len() == 6);
    assert("wk"@.len() == 2 && "msec"@.len() == 4);
    assert("wk"@[0] == 'w' && "ms"@[0] == 'm');
    assert("wk"@.len() == 2 && "seconds"@.len() == 7);
    assert("wk"@.len() == 2 && "second"@.len() == 6);
    assert("wk"@.len() == 2 && "secs"@.len() == 4);
    assert("wk"@.len() == 2 && "sec"@.len() == 3);
    assert("wk"@.len() == 2 && "s"@.len() == 1);
    assert("wk"@.len() == 2 && "minutes"@.len() == 7);
    assert("wk"@.len() == 2 && "minute"@.len() == 6);
    assert("wk"@.len() == 2 && "min"@.len() == 3);
    assert("wk"@.len() == 2 && "mins"@.len() == 4);
    assert("wk"@.len() == 2 && "m"@.len() == 1);
    assert("wk"@.len() == 2 && "hours"@.len() == 5);
    assert("wk"@.len() == 2 && "hour"@.len() == 4);
    assert("wk"@[0] == 'w' && "hr"@[0] == 'h');
    assert("wk"@.len() == 2 && "hrs"@.len() == 3);
    assert("wk"@.len() == 2 && "h"@.len() == 1);
    assert("wk"@.len() == 2 && "days"@.len() == 4);
    assert("wk"@.len() == 2 && "day"@.len() == 3);
    assert("wk"@.len() == 2 && "d"@.len() == 1);
    assert("wk"@.len() == 2 && "weeks"@.len() == 5);
    assert("wk"@.len() == 2 && "week"@.len() == 4);
}

proof fn lemma_unit_named_wks()
    ensures
        unit_nanos("wks"@) == Some((604_800nat * NANOS_PER_SEC) as nat),
{
    reveal_strlit("nanos"); reveal_strlit("nsec"); reveal_strlit("ns"); reveal_strlit("usec"); reveal_strlit("us"); reveal_strlit("millis"); reveal_strlit("msec"); reveal_strlit("ms"); reveal_strlit("seconds"); reveal_strlit("second"); reveal_strlit("secs"); reveal_strlit("sec"); reveal_strlit("s"); reveal_strlit("minutes"); reveal_strlit("minute"); reveal_strlit("min"); reveal_strlit("mins"); reveal_strlit("m"); reveal_strlit("hours"); reveal_strlit("hour"); reveal_strlit("hr"); reveal_strlit("hrs"); reveal_strlit("h"); reveal_strlit("days"); reveal_strlit("day"); reveal_strlit("d"); reveal_strlit("weeks"); reveal_strlit("week"); reveal_strlit("wk"); reveal_strlit("wks");
    assert("wks"@.len() == 3 && "nanos"@.len() == 5);
    assert("wks"@.len() == 3 && "nsec"@.len() == 4);
    assert("wks"@.len() == 3 && "ns"@.len() == 2);
    assert("wks"@.len() == 3 && "usec"@.len() == 4);
    assert("wks"@.len() == 3 && "us"@.len() == 2);
    assert("wks"@.len() == 3 && seq!['\u{b5}', 's'].len() == 2);
    assert("wks"@.len() == 3 && "millis"@.len() == 6);
    assert("wks"@.len() == 3 && "msec"@.len() == 4);
    assert("wks"@.len() == 3 && "ms"@.len() == 2);
    assert("wks"@.len() == 3 && "seconds"@.len() == 7);
    assert("wks"@.len() == 3 && "second"@.len() == 6);
    assert("wks"@.len() == 3 && "secs"@.len() == 4);
    assert("wks"@[0] == 'w' && "sec"@[0] == 's');
    assert("wks"@.len() == 3 && "s"@.len() == 1);
    assert("wks"@.len() == 3 && "minutes"@.len() == 7);
    assert("wks"@.len() == 3 && "minute"@.len() == 6);
    assert("wks"@[0] == 'w' && "min"@[0] == 'm');
    assert("wks"@.len() == 3 && "mins"@.len() == 4);
    assert("wks"@.len() == 3 && "m"@.len() == 1);
    assert("wks"@.len() == 3 && "hours"@.len() == 5);
    assert("wks"@.len() == 3 && "hour"@.len() == 4);
    assert("wks"@.len() == 3 && "hr"@.len() == 2);
    assert("wks"@[0] == 'w' && "hrs"@[0] == 'h');
    assert("wks"@.len() == 3 && "h"@.len() == 1);
    assert("wks"@.len() == 3 && "days"@.len() == 4);
    assert("wks"@[0] == 'w' && "day"@[0] == 'd');
    assert("wks"@.len() == 3 && "d"@.len() == 1);
    assert("wks"@.len() == 3 && "weeks"@.len() == 5);
    assert("wks"@.len() == 3 && "week"@.len() == 4);
    assert("wks"@.len() == 3 && "wk"@.len() == 2);
}

proof fn lemma_unit_named_w()
    ensures
        unit_nanos("w"@) == Some((604_800nat * NANOS_PER_SEC) as nat),
{
    reveal_strlit("nanos"); reveal_strlit("nsec"); reveal_strlit("ns"); reveal_strlit("usec"); reveal_strlit("us"); reveal_strlit("millis"); reveal_strlit("msec"); reveal_strlit("ms"); reveal_strlit("seconds"); reveal_strlit("second"); reveal_strlit("secs"); reveal_strlit("sec"); reveal_strlit("s"); reveal_strlit("minutes"); reveal_strlit("minute"); reveal_strlit("min"); reveal_strlit("mins"); reveal_strlit("m"); reveal_strlit("hours"); reveal_strlit("hour"); reveal_strlit("hr"); reveal_strlit("hrs"); reveal_strlit("h"); reveal_strlit("days"); reveal_strlit("day"); reveal_strlit("d"); reveal_strlit("weeks"); reveal_strlit("week"); reveal_strlit("wk"); reveal_strlit("wks"); reveal_strlit("w");
    assert("w"@.len() == 1 && "nanos"@.len() == 5);
    assert("w"@.len() == 1 && "nsec"@.len() == 4);
    assert("w"@.len() == 1 && "ns"@.len() == 2);
    assert("w"@.len() == 1 && "usec"@.len() == 4);
    assert("w"@.len() == 1 && "us"@.len() == 2);
    assert("w"@.len() == 1 && seq!['\u{b5}', 's'].len() == 2);
    assert("w"@.len() == 1 && "millis"@.len() == 6);
    assert("w"@.len() == 1 && "msec"@.len() == 4);
    assert("w"@.len() == 1 && "ms"@.len() == 2);
    assert("w"@.len() == 1 && "seconds"@.len() == 7);
    assert("w"@.len() == 1 && "second"@.len() == 6);
    assert("w"@.len() == 1 && "secs"@.len() == 4);
    assert("w"@.len() == 1 && "sec"@.len() == 3);
    assert("w"@[0] == 'w' && "s"@[0] == 's');
    assert("w"@.len() == 1 && "minutes"@.len() == 7);
    assert("w"@.len() == 1 && "minute"@.len() == 6);
    assert("w"@.len() == 1 && "min"@.len() == 3);
    assert("w"@.len() == 1 && "mins"@.len() == 4);
    assert("w"@[0] == 'w' && "m"@[0] == 'm');
    assert("w"@.len() == 1 && "hours"@.len() == 5);
    assert("w"@.len() == 1 && "hour"@.len() == 4);
    assert("w"@.len() == 1 && "hr"@.len() == 2);
    assert("w"@.len() == 1 && "hrs"@.len() == 3);
    assert("w"@[0] == 'w' && "h"@[0] == 'h');
    assert("w"@.len() == 1 && "days"@.len() == 4);
    assert("w"@.len() == 1 && "day"@.len() == 3);
    assert("w"@[0] == 'w' && "d"@[0] == 'd');
    assert("w"@.len() == 1 && "weeks"@.len() == 5);
    assert("w"@.len() == 1 && "week"@.len() == 4);
    assert("w"@.len() == 1 && "wk"@.len() == 2);
    assert("w"@.len() == 1 && "wks"@.len() == 3);
}

proof fn lemma_unit_named_months()
    ensures
        unit_nanos("months"@) == Some((2_630_016nat * NANOS_PER_SEC) as nat),
{
    reveal_strlit("nanos"); reveal_strlit("nsec"); reveal_strlit("ns"); reveal_strlit("usec"); reveal_strlit("us"); reveal_strlit("millis"); reveal_strlit("msec"); reveal_strlit("ms"); reveal_strlit("seconds"); reveal_strlit("second"); reveal_strlit("secs"); reveal_strlit("sec"); reveal_strlit("s"); reveal_strlit("minutes"); reveal_strlit("minute"); reveal_strlit("min"); reveal_strlit("mins"); reveal_strlit("m"); reveal_strlit("hours"); reveal_strlit("hour"); reveal_strlit("hr"); reveal_strlit("hrs"); reveal_strlit("h"); reveal_strlit("days"); reveal_strlit("day"); reveal_strlit("d"); reveal_strlit("weeks"); reveal_strlit("week"); reveal_strlit("wk"); reveal_strlit("wks"); reveal_strlit("w"); reveal_strlit("months");
    assert("months"@.len() == 6 && "nanos"@.len() == 5);
    assert("months"@.len() == 6 && "nsec"@.len() == 4);
    assert("months"@.len() == 6 && "ns"@.len() == 2);
    assert("months"@.len() == 6 && "usec"@.len() == 4);
    assert("months"@.len() == 6 && "us"@.len() == 2);
    assert("months"@.len() == 6 && seq!['\u{b5}', 's'].len() == 2);
    assert("months"@[1] == 'o' && "millis"@[1] == 'i');
    assert("months"@.len() == 6 && "msec"@.len() == 4);
    assert("months"@.len() == 6 && "ms"@.len() == 2);
    assert("months"@.len() == 6 && "seconds"@.len() == 7);
    assert("months"@[0] == 'm' && "second"@[0] == 's');
    assert("months"@.len() == 6 && "secs"@.len() == 4);
    assert("months"@.len() == 6 && "sec"@.len() == 3);
    assert("months"@.len() == 6 && "s"@.len() == 1);
    assert("months"@.len() == 6 && "minutes"@.len() == 7);
    assert("months"@[1] == 'o' && "minute"@[1] == 'i');
    assert("months"@.len() == 6 && "min"@.len() == 3);
    assert("months"@.len() == 6 && "mins"@.len() == 4);
    assert("months"@.len() == 6 && "m"@.len() == 1);
    assert("months"@.len() == 6 && "hours"@.len() == 5);
    assert("months"@.len() == 6 && "hour"@.len() == 4);
    assert("months"@.len() == 6 && "hr"@.len() == 2);
    assert("months"@.len() == 6 && "hrs"@.len() == 3);
    assert("months"@.len() == 6 && "h"@.len() == 1);
    assert("months"@.len() == 6 && "days"@.len() == 4);
    assert("months"@.len() == 6 && "day"@.len() == 3);
    assert("months"@.len() == 6 && "d"@.len() == 1);
    assert("months"@.len() == 6 && "weeks"@.len() == 5);
    assert("months"@.len() == 6 && "week"@.len() == 4);
    assert("months"@.len() == 6 && "wk"@.len() == 2);
    assert("months"@.len() == 6 && "wks"@.len() == 3);
    assert("months"@.len() == 6 && "w"@.len() == 1);
}

proof fn lemma_unit_named_month()
    ensures
        unit_nanos("month"@) == Some((2_630_016nat * NANOS_PER_SEC) as nat),
{
    reveal_strlit("nanos"); reveal_strlit("nsec"); reveal_strlit("ns"); reveal_strlit("usec"); reveal_strlit("us"); reveal_strlit("millis"); reveal_strlit("msec"); reveal_strlit("ms"); reveal_strlit("seconds"); reveal_strlit("second"); reveal_strlit("secs"); reveal_strlit("sec"); reveal_strlit("s"); reveal_strlit("minutes"); reveal_strlit("minute"); reveal_strlit("min"); reveal_strlit("mins"); reveal_strlit("m"); reveal_strlit("hours"); reveal_strlit("hour"); reveal_strlit("hr"); reveal_strlit("hrs"); reveal_strlit("h"); reveal_strlit("days"); reveal_strlit("day"); reveal_strlit("d"); reveal_strlit("weeks"); reveal_strlit("week"); reveal_strlit("wk"); reveal_strlit("wks"); reveal_strlit("w"); reveal_strlit("months"); reveal_strlit("month");
    assert("month"@[0] == 'm' && "nanos"@[0] == 'n');
    assert("month"@.len() == 5 && "nsec"@.len() == 4);
    assert("month"@.len() == 5 && "ns"@.len() == 2);
    assert("month"@.len() == 5 && "usec"@.len() == 4);
    assert("month"@.len() == 5 && "us"@.len() == 2);
    assert("month"@.len() == 5 && seq!['\u{b5}', 's'].len() == 2);
    assert("month"@.len() == 5 && "millis"@.len() == 6);
    assert("month"@.len() == 5 && "msec"@.len() == 4);
    assert("month"@.len() == 5 && "ms"@.len() == 2);
    assert("month"@.len() == 5 && "seconds"@.len() == 7);
    assert("month"@.len() == 5 && "second"@.len() == 6);
    assert("month"@.len() == 5 && "secs"@.len() == 4);
    assert("month"@.len() == 5 && "sec"@.len() == 3);
    assert("month"@.len() == 5 && "s"@.len() == 1);
    assert("month"@.len() == 5 && "minutes"@.len() == 7);
    assert("month"@.len() == 5 && "minute"@.len() == 6);
    assert("month"@.len() == 5 && "min"@.len() == 3);
    assert("month"@.len() == 5 && "mins"@.len() == 4);
    assert("month"@.len() == 5 && "m"@.len() == 1);
    assert("month"@[0] == 'm' && "hours"@[0] == 'h');
    assert("month"@.len() == 5 && "hour"@.len() == 4);
    assert("month"@.len() == 5 && "hr"@.len() == 2);
    assert("month"@.len() == 5 && "hrs"@.len() == 3);
    assert("month"@.len() == 5 && "h"@.len() == 1);
    assert("month"@.len() == 5 && "days"@.len() == 4);
    assert("month"@.len() == 5 && "day"@.len() == 3);
    assert("month"@.len() == 5 && "d"@.len() == 1);
    assert("month"@[0] == 'm' && "weeks"@[0] == 'w');
    assert("month"@.len() == 5 && "week"@.len() == 4);
    assert("month"@.len() == 5 && "wk"@.len() == 2);
    assert("month"@.len() == 5 && "wks"@.len() == 3);
    assert("month"@.len() == 5 && "w"@.len() == 1);
    assert("month"@.len() == 5 && "months"@.len() == 6);
}

proof fn lemma_unit_named_upper_m()
    ensures
        unit_nanos("M"@) == Some((2_630_016nat * NANOS_PER_SEC) as nat),
{
    reveal_strlit("nanos"); reveal_strlit("nsec"); reveal_strlit("ns"); reveal_strlit("usec"); reveal_strlit("us"); reveal_strlit("millis"); reveal_strlit("msec"); reveal_strlit("ms"); reveal_strlit("seconds"); reveal_strlit("second"); reveal_strlit("secs"); reveal_strlit("sec"); reveal_strlit("s"); reveal_strlit("minutes"); reveal_strlit("minute"); reveal_strlit("min"); reveal_strlit("mins"); reveal_strlit("m"); reveal_strlit("hours"); reveal_strlit("hour"); reveal_strlit("hr"); reveal_strlit("hrs"); reveal_strlit("h"); reveal_strlit("days"); reveal_strlit("day"); reveal_strlit("d"); reveal_strlit("weeks"); reveal_strlit("week"); reveal_strlit("wk"); reveal_strlit("wks"); reveal_strlit("w"); reveal_strlit("months"); reveal_strlit("month"); reveal_strlit("M");
    assert("M"@.len() == 1 && "nanos"@.len() == 5);
    assert("M"@.len() == 1 && "nsec"@.len() == 4);
    assert("M"@.len() == 1 && "ns"@.len() == 2);
    assert("M"@.len() == 1 && "usec"@.len() == 4);
    assert("M"@.len() == 1 && "us"@.len() == 2);
    assert("M"@.len() == 1 && seq!['\u{b5}', 's'].len() == 2);
    assert("M"@.len() == 1 && "millis"@.len() == 6);
    assert("M"@.len() == 1 && "msec"@.len() == 4);
    assert("M"@.len() == 1 && "ms"@.len() == 2);
    assert("M"@.len() == 1 && "seconds"@.len() == 7);
    assert("M"@.len() == 1 && "second"@.len() == 6);
    assert("M"@.len() == 1 && "secs"@.len() == 4);
    assert("M"@.len() == 1 && "sec"@.len() == 3);
    assert("M"@[0] == 'M' && "s"@[0] == 's');
    assert("M"@.len() == 1 && "minutes"@.len() == 7);
    assert("M"@.len() == 1 && "minute"@.len() == 6);
    assert("M"@.len() == 1 && "min"@.len() == 3);
    assert("M"@.len() == 1 && "mins"@.len() == 4);
    assert("M"@[0] == 'M' && "m"@[0] == 'm');
    assert("M"@.len() == 1 && "hours"@.len() == 5);
    assert("M"@.len() == 1 && "hour"@.len() == 4);
    assert("M"@.len() == 1 && "hr"@.len() == 2);
    assert("M"@.len() == 1 && "hrs"@.len() == 3);
    assert("M"@[0] == 'M' && "h"@[0] == 'h');
    assert("M"@.len() == 1 && "days"@.len() == 4);
    assert("M"@.len() == 1 && "day"@.len() == 3);
    assert("M"@[0] == 'M' && "d"@[0] == 'd');
    assert("M"@.len() == 1 && "weeks"@.len() == 5);
    assert("M"@.len() == 1 && "week"@.len() == 4);
    assert("M"@.len() == 1 && "wk"@.len() == 2);
    assert("M"@.len() == 1 && "wks"@.len() == 3);
    assert("M"@[0] == 'M' && "w"@[0] == 'w');
    assert("M"@.len() == 1 && "months"@.len() == 6);
    assert("M"@.len() == 1 && "month"@.len() == 5);
}

proof fn lemma_unit_named_years()
    ensures
        unit_nanos("years"@) == Some((31_557_600nat * NANOS_PER_SEC) as nat),
{
    reveal_strlit("nanos"); reveal_strlit("nsec"); reveal_strlit("ns"); reveal_strlit("usec"); reveal_strlit("us"); reveal_strlit("millis"); reveal_strlit("msec"); reveal_strlit("ms"); reveal_strlit("seconds"); reveal_strlit("second"); reveal_strlit("secs"); reveal_strlit("sec"); reveal_strlit("s"); reveal_strlit("minutes"); reveal_strlit("minute"); reveal_strlit("min"); reveal_strlit("mins"); reveal_strlit("m"); reveal_strlit("hours"); reveal_strlit("hour"); reveal_strlit("hr"); reveal_strlit("hrs"); reveal_strlit("h"); reveal_strlit("days"); reveal_strlit("day"); reveal_strlit("d"); reveal_strlit("weeks"); reveal_strlit("week"); reveal_strlit("wk"); reveal_strlit("wks"); reveal_strlit("w"); reveal_strlit("months"); reveal_strlit("month"); reveal_strlit("M"); reveal_strlit("years");
    assert("years"@[0] == 'y' && "nanos"@[0] == 'n');
    assert("years"@.len() == 5 && "nsec"@.len() == 4);
    assert("years"@.len() == 5 && "ns"@.len() == 2);
    assert("years"@.len() == 5 && "usec"@.len() == 4);
    assert("years"@.len() == 5 && "us"@.len() == 2);
    assert("years"@.len() == 5 && seq!['\u{b5}', 's'].len() == 2);
    assert("years"@.len() == 5 && "millis"@.len() == 6);
    assert("years"@.len() == 5 && "msec"@.len() == 4);
    assert("years"@.len() == 5 && "ms"@.len() == 2);
    assert("years"@.len() == 5 && "seconds"@.len() == 7);
    assert("years"@.len() == 5 && "second"@.len() == 6);
    assert("years"@.len() == 5 && "secs"@.len() == 4);
    assert("years"@.len() == 5 && "sec"@.len() == 3);
    assert("years"@.len() == 5 && "s"@.len() == 1);
    assert("years"@.len() == 5 && "minutes"@.len() == 7);
    assert("years"@.len() == 5 && "minute"@.len() == 6);
    assert("years"@.len() == 5 && "min"@.len() == 3);
    assert("years"@.len() == 5 && "mins"@.len() == 4);
    assert("years"@.len() == 5 && "m"@.len() == 1);
    assert("years"@[0] == 'y' && "hours"@[0] == 'h');
    assert("years"@.len() == 5 && "hour"@.len() == 4);
    assert("years"@.len() == 5 && "hr"@.len() == 2);
    assert("years"@.len() == 5 && "hrs"@.len() == 3);
    assert("years"@.len() == 5 && "h"@.len() == 1);
    assert("years"@.len() == 5 && "days"@.len() == 4);
    assert("years"@.len() == 5 && "day"@.len() == 3);
    assert("years"@.len() == 5 && "d"@.len() == 1);
    assert("years"@[0] == 'y' && "weeks"@[0] == 'w');
    assert("years"@.len() == 5 && "week"@.len() == 4);
    assert("years"@.len() == 5 && "wk"@.len() == 2);
    assert("years"@.len() == 5 && "wks"@.len() == 3);
    assert("years"@.len() == 5 && "w"@.len() == 1);
    assert("years"@.len() == 5 && "months"@.len() == 6);
    assert("years"@[0] == 'y' && "month"@[0] == 'm');
    assert("years"@.len() == 5 && "M"@.len() == 1);
}

proof fn lemma_unit_named_year()
    ensures
        unit_nanos("year"@) == Some((31_557_600nat * NANOS_PER_SEC) as nat),
{
    reveal_strlit("nanos"); reveal_strlit("nsec"); reveal_strlit("ns"); reveal_strlit("usec"); reveal_strlit("us"); reveal_strlit("millis"); reveal_strlit("msec"); reveal_strlit("ms"); reveal_strlit("seconds"); reveal_strlit("second"); reveal_strlit("secs"); reveal_strlit("sec"); reveal_strlit("s"); reveal_strlit("minutes"); reveal_strlit("minute"); reveal_strlit("min"); reveal_strlit("mins"); reveal_strlit("m"); reveal_strlit("hours"); reveal_strlit("hour"); reveal_strlit("hr"); reveal_strlit("hrs"); reveal_strlit("h"); reveal_strlit("days"); reveal_strlit("day"); reveal_strlit("d"); reveal_strlit("weeks"); reveal_strlit("week"); reveal_strlit("wk"); reveal_strlit("wks"); reveal_strlit("w"); reveal_strlit("months"); reveal_strlit("month"); reveal_strlit("M"); reveal_strlit("years"); reveal_strlit("year");
    assert("year"@.len() == 4 && "nanos"@.len() == 5);
    assert("year"@[0] == 'y' && "nsec"@[0] == 'n');
    assert("year"@.len() == 4 && "ns"@.len() == 2);
    assert("year"@[0] == 'y' && "usec"@[0] == 'u');
    assert("year"@.len() == 4 && "us"@.len() == 2);
    assert("year"@.len() == 4 && seq!['\u{b5}', 's'].len() == 2);
    assert("year"@.len() == 4 && "millis"@.len() == 6);
    assert("year"@[0] == 'y' && "msec"@[0] == 'm');
    assert("year"@.len() == 4 && "ms"@.len() == 2);
    assert("year"@.len() == 4 && "seconds"@.len() == 7);
    assert("year"@.len() == 4 && "second"@.len() == 6);
    assert("year"@[0] == 'y' && "secs"@[0] == 's');
    assert("year"@.len() == 4 && "sec"@.len() == 3);
    assert("year"@.len() == 4 && "s"@.len() == 1);
    assert("year"@.len() == 4 && "minutes"@.len() == 7);
    assert("year"@.len() == 4 && "minute"@.len() == 6);
    assert("year"@.len() == 4 && "min"@.len() == 3);
    assert("year"@[0] == 'y' && "mins"@[0] == 'm');
    assert("year"@.len() == 4 && "m"@.len() == 1);
    assert("year"@.len() == 4 && "hours"@.len() == 5);
    assert("year"@[0] == 'y' && "hour"@[0] == 'h');
    assert("year"@.len() == 4 && "hr"@.len() == 2);
    assert("year"@.len() == 4 && "hrs"@.len() == 3);
    assert("year"@.len() == 4 && "h"@.len() == 1);
    assert("year"@[0] == 'y' && "days"@[0] == 'd');
    assert("year"@.len() == 4 && "day"@.len() == 3);
    assert("year"@.len() == 4 && "d"@.len() == 1);
    assert("year"@.len() == 4 && "weeks"@.len() == 5);
    assert("year"@[0] == 'y' && "week"@[0] == 'w');
    assert("year"@.len() == 4 && "wk"@.len() == 2);
    assert("year"@.len() == 4 && "wks"@.len() == 3);
    assert("year"@.len() == 4 && "w"@.len() == 1);
    assert("year"@.len() == 4 && "months"@.len() == 6);
    assert("year"@.len() == 4 && "month"@.len() == 5);
    assert("year"@.len() == 4 && "M"@.len() == 1);
    assert("year"@.len() == 4 && "years"@.len() == 5);
}

proof fn lemma_unit_named_yr()
    ensures
        unit_nanos("yr"@) == Some((31_557_600nat * NANOS_PER_SEC) as nat),
{
    reveal_strlit("nanos"); reveal_strlit("nsec"); reveal_strlit("ns"); reveal_strlit("usec"); reveal_strlit("us"); reveal_strlit("millis"); reveal_strlit("msec"); reveal_strlit("ms"); reveal_strlit("seconds"); reveal_strlit("second"); reveal_strlit("secs"); reveal_strlit("sec"); reveal_strlit("s"); reveal_strlit("minutes"); reveal_strlit("minute"); reveal_strlit("min"); reveal_strlit("mins"); reveal_strlit("m"); reveal_strlit("hours"); reveal_strlit("hour"); reveal_strlit("hr"); reveal_strlit("hrs"); reveal_strlit("h"); reveal_strlit("days"); reveal_strlit("day"); reveal_strlit("d"); reveal_strlit("weeks"); reveal_strlit("week"); reveal_strlit("wk"); reveal_strlit("wks"); reveal_strlit("w"); reveal_strlit("months"); reveal_strlit("month"); reveal_strlit("M"); reveal_strlit("years"); reveal_strlit("year"); reveal_strlit("yr");
    assert("yr"@.len() == 2 && "nanos"@.len() == 5);
    assert("yr"@.len() == 2 && "nsec"@.len() == 4);
    assert("yr"@[0] == 'y' && "ns"@[0] == 'n');
    assert("yr"@.len() == 2 && "usec"@.len() == 4);
    assert("yr"@[0] == 'y' && "us"@[0] == 'u');
    assert("yr"@[0] == 'y' && seq!['\u{b5}', 's'][0] == '\u{b5}');
    assert("yr"@.len() == 2 && "millis"@.len() == 6);
    assert("yr"@.len() == 2 && "msec"@.len() == 4);
    assert("yr"@[0] == 'y' && "ms"@[0] == 'm');
    assert("yr"@.len() == 2 && "seconds"@.len() == 7);
    assert("yr"@.len() == 2 && "second"@.len() == 6);
    assert("yr"@.len() == 2 && "secs"@.len() == 4);
    assert("yr"@.len() == 2 && "sec"@.len() == 3);
    assert("yr"@.len() == 2 && "s"@.len() == 1);
    assert("yr"@.len() == 2 && "minutes"@.len() == 7);
    assert("yr"@.len() == 2 && "minute"@.len() == 6);
    assert("yr"@.len() == 2 && "min"@.len() == 3);
    assert("yr"@.len() == 2 && "mins"@.len() == 4);
    assert("yr"@.len() == 2 && "m"@.len() == 1);
    assert("yr"@.len() == 2 && "hours"@.len() == 5);
    assert("yr"@.len() == 2 && "hour"@.len() == 4);
    assert("yr"@[0] == 'y' && "hr"@[0] == 'h');
    assert("yr"@.len() == 2 && "hrs"@.len() == 3);
    assert("yr"@.len() == 2 && "h"@.len() == 1);
    assert("yr"@.len() == 2 && "days"@.len() == 4);
    assert("yr"@.len() == 2 && "day"@.len() == 3);
    assert("yr"@.len() == 2 && "d"@.len() == 1);
    assert("yr"@.len() == 2 && "weeks"@.len() == 5);
    assert("yr"@.len() == 2 && "week"@.len() == 4);
    assert("yr"@[0] == 'y' && "wk"@[0] == 'w');
    assert("yr"@.len() == 2 && "wks"@.len() == 3);
    assert("yr"@.len() == 2 && "w"@.len() == 1);
    assert("yr"@.len() == 2 && "months"@.len() == 6);
    assert("yr"@.len() == 2 && "month"@.len() == 5);
    assert("yr"@.len() == 2 && "M"@.len() == 1);
    assert("yr"@.len() == 2 && "years"@.len() == 5);
    assert("yr"@.len() == 2 && "year"@.len() == 4);
}

proof fn lemma_unit_named_yrs()
    ensures
        unit_nanos("yrs"@) == Some((31_557_600nat * NANOS_PER_SEC) as nat),
{
    reveal_strlit("nanos"); reveal_strlit("nsec"); reveal_strlit("ns"); reveal_strlit("usec"); reveal_strlit("us"); reveal_strlit("millis"); reveal_strlit("msec"); reveal_strlit("ms"); reveal_strlit("seconds"); reveal_strlit("second"); reveal_strlit("secs"); reveal_strlit("sec"); reveal_strlit("s"); reveal_strlit("minutes"); reveal_strlit("minute"); reveal_strlit("min"); reveal_strlit("mins"); reveal_strlit("m"); reveal_strlit("hours"); reveal_strlit("hour"); reveal_strlit("hr"); reveal_strlit("hrs"); reveal_strlit("h"); reveal_strlit("days"); reveal_strlit("day"); reveal_strlit("d"); reveal_strlit("weeks"); reveal_strlit("week"); reveal_strlit("wk"); reveal_strlit("wks"); reveal_strlit("w"); reveal_strlit("months"); reveal_strlit("month"); reveal_strlit("M"); reveal_strlit("years"); reveal_strlit("year"); reveal_strlit("yr"); reveal_strlit("yrs");
    assert("yrs"@.len() == 3 && "nanos"@.len() == 5);
    assert("yrs"@.len() == 3 && "nsec"@.len() == 4);
    assert("yrs"@.len() == 3 && "ns"@.len() == 2);
    assert("yrs"@.len() == 3 && "usec"@.len() == 4);
    assert("yrs"@.len() == 3 && "us"@.len() == 2);
    assert("yrs"@.len() == 3 && seq!['\u{b5}', 's'].len() == 2);
    assert("yrs"@.len() == 3 && "millis"@.len() == 6);
    assert("yrs"@.len() == 3 && "msec"@.len() == 4);
    assert("yrs"@.len() == 3 && "ms"@.len() == 2);
    assert("yrs"@.len() == 3 && "seconds"@.len() == 7);
    assert("yrs"@.len() == 3 && "second"@.len() == 6);
    assert("yrs"@.len() == 3 && "secs"@.len() == 4);
    assert("yrs"@[0] == 'y' && "sec"@[0] == 's');
    assert("yrs"@.len() == 3 && "s"@.len() == 1);
    assert("yrs"@.len() == 3 && "minutes"@.len() == 7);
    assert("yrs"@.len() == 3 && "minute"@.len() == 6);
    assert("yrs"@[0] == 'y' && "min"@[0] == 'm');
    assert("yrs"@.len() == 3 && "mins"@.len() == 4);
    assert("yrs"@.len() == 3 && "m"@.len() == 1);
    assert("yrs"@.len() == 3 && "hours"@.len() == 5);
    assert("yrs"@.len() == 3 && "hour"@.len() == 4);
    assert("yrs"@.len() == 3 && "hr"@.len() == 2);
    assert("yrs"@[0] == 'y' && "hrs"@[0] == 'h');
    assert("yrs"@.len() == 3 && "h"@.len() == 1);
    assert("yrs"@.len() == 3 && "days"@.len() == 4);
    assert("yrs"@[0] == 'y' && "day"@[0] == 'd');
    assert("yrs"@.len() == 3 && "d"@.len() == 1);
    assert("yrs"@.len() == 3 && "weeks"@.len() == 5);
    assert("yrs"@.len() == 3 && "week"@.len() == 4);
    assert("yrs"@.len() == 3 && "wk"@.len() == 2);
    assert("yrs"@[0] == 'y' && "wks"@[0] == 'w');
    assert("yrs"@.len() == 3 && "w"@.len() == 1);
    assert("yrs"@.len() == 3 && "months"@.len() == 6);
    assert("yrs"@.len() == 3 && "month"@.len() == 5);
    assert("yrs"@.len() == 3 && "M"@.len() == 1);
    assert("yrs"@.len() == 3 && "years"@.len() == 5);
    assert("yrs"@.len() == 3 && "year"@.len() == 4);
    assert("yrs"@.len() == 3 && "yr"@.len() == 2);
}

proof fn lemma_unit_named_y()
    ensures
        unit_nanos("y"@) == Some((31_557_600nat * NANOS_PER_SEC) as nat),
{
    reveal_strlit("nanos"); reveal_strlit("nsec"); reveal_strlit("ns"); reveal_strlit("usec"); reveal_strlit("us"); reveal_strlit("millis"); reveal_strlit("msec"); reveal_strlit("ms"); reveal_strlit("seconds"); reveal_strlit("second"); reveal_strlit("secs"); reveal_strlit("sec"); reveal_strlit("s"); reveal_strlit("minutes"); reveal_strlit("minute"); reveal_strlit("min"); reveal_strlit("mins"); reveal_strlit("m"); reveal_strlit("hours"); reveal_strlit("hour"); reveal_strlit("hr"); reveal_strlit("hrs"); reveal_strlit("h"); reveal_strlit("days"); reveal_strlit("day"); reveal_strlit("d"); reveal_strlit("weeks"); reveal_strlit("week"); reveal_strlit("wk"); reveal_strlit("wks"); reveal_strlit("w"); reveal_strlit("months"); reveal_strlit("month"); reveal_strlit("M"); reveal_strlit("years"); reveal_strlit("year"); reveal_strlit("yr"); reveal_strlit("yrs"); reveal_strlit("y");
    assert("y"@.len() == 1 && "nanos"@.len() == 5);
    assert("y"@.len() == 1 && "nsec"@.len() == 4);
    assert("y"@.len() == 1 && "ns"@.len() == 2);
    assert("y"@.len() == 1 && "usec"@.len() == 4);
    assert("y"@.len() == 1 && "us"@.len() == 2);
    assert("y"@.len() == 1 && seq!['\u{b5}', 's'].len() == 2);
    assert("y"@.len() == 1 && "millis"@.len() == 6);
    assert("y"@.len() == 1 && "msec"@.len() == 4);
    assert("y"@.len() == 1 && "ms"@.len() == 2);
    assert("y"@.len() == 1 && "seconds"@.len() == 7);
    assert("y"@.len() == 1 && "second"@.len() == 6);
    assert("y"@.len() == 1 && "secs"@.len() == 4);
    assert("y"@.len() == 1 && "sec"@.len() == 3);
    assert("y"@[0] == 'y' && "s"@[0] == 's');
    assert("y"@.len() == 1 && "minutes"@.len() == 7);
    assert("y"@.len() == 1 && "minute"@.len() == 6);
    assert("y"@.len() == 1 && "min"@.len() == 3);
    assert("y"@.len() == 1 && "mins"@.len() == 4);
    assert("y"@[0] == 'y' && "m"@[0] == 'm');
    assert("y"@.len() == 1 && "hours"@.len() == 5);
    assert("y"@.len() == 1 && "hour"@.len() == 4);
    assert("y"@.len() == 1 && "hr"@.len() == 2);
    assert("y"@.len() == 1 && "hrs"@.len() == 3);
    assert("y"@[0] == 'y' && "h"@[0] == 'h');
    assert("y"@.len() == 1 && "days"@.len() == 4);
    assert("y"@.len() == 1 && "day"@.len() == 3);
    assert("y"@[0] == 'y' && "d"@[0] == 'd');
    assert("y"@.len() == 1 && "weeks"@.len() == 5);
    assert("y"@.len() == 1 && "week"@.len() == 4);
    assert("y"@.len() == 1 && "wk"@.len() == 2);
    assert("y"@.len() == 1 && "wks"@.len() == 3);
    assert("y"@[0] == 'y' && "w"@[0] == 'w');
    assert("y"@.len() == 1 && "months"@.len() == 6);
    assert("y"@.len() == 1 && "month"@.len() == 5);
    assert("y"@[0] == 'y' && "M"@[0] == 'M');
    assert("y"@.len() == 1 && "years"@.len() == 5);
    assert("y"@.len() == 1 && "year"@.len() == 4);
    assert("y"@.len() == 1 && "yr"@.len() == 2);
    assert("y"@.len() == 1 && "yrs"@.len() == 3);
}

/// A whole number of a unit of whole seconds is bounded by its span, and
/// where that span is at most `u64::MAX` seconds the text reads as
/// `humantime` reads it.
proof fn lemma_count_reading(n: nat, w: Seq<char>, secs: nat)
    requires
        w.len() > 0,
        forall|i: int| 0 <= i < w.len() ==> is_unit_char(#[trigger] w[i]),
        unit_nanos(w) == Some((secs * NANOS_PER_SEC) as nat),
    ensures
        span_bound(decimal(n) + w) == n * secs * NANOS_PER_SEC,
        n * secs <= u64::MAX ==> duration_reading(decimal(n) + w) == humantime_parse(
            decimal(n) + w,
        ),
{
    lemma_bound_of_count(n, w);
    assert(n * (secs * NANOS_PER_SEC) == n * secs * NANOS_PER_SEC) by (nonlinear_arith);
    if n * secs <= u64::MAX {
        assert(n * secs * NANOS_PER_SEC <= u64::MAX * NANOS_PER_SEC) by (nonlinear_arith)
            requires
                n * secs <= u64::MAX,
        ;
    }
}

/// `x`, capped at one past `MAX_NANOS`.
pub open spec fn capped(x: nat) -> nat {
    if x <= MAX_NANOS { x } else { (MAX_NANOS + 1) as nat }
}

/// Against a total within `MAX_NANOS`, a capped count of a unit passes
/// `MAX_NANOS` exactly where the count itself does.
proof fn lemma_capped_weight(total: nat, p: nat, u: nat)
    requires
        total <= MAX_NANOS,
        u >= 1,
    ensures
        (total + capped(p) * u > MAX_NANOS) == (total + p * u > MAX_NANOS),
        total + p * u <= MAX_NANOS ==> capped(p) == p,
{
    if p > MAX_NANOS {
        assert(p * u >= p) by (nonlinear_arith)
            requires
                u >= 1,
        ;
        assert(capped(p) * u >= capped(p)) by (nonlinear_arith)
            requires
                u >= 1,
        ;
    }
}

/// The length in nanoseconds of the unit named `v[lo..hi]`, as
/// `unit_nanos` says.
fn unit_nanos_at(v: &Vec<char>, lo: usize, hi: usize) -> (r: Option<u128>)
    requires
        lo <= hi <= v@.len(),
    ensures
        match unit_nanos(v@.subrange(lo as int, hi as int)) {
            Some(u) => r == Some(u as u128),
            None => r is None,
        },
{
    proof {
        reveal_strlit("nanos");
        reveal_strlit("nsec");
        reveal_strlit("ns");
        reveal_strlit("usec");
        reveal_strlit("us");
        reveal_strlit("millis");
        reveal_strlit("msec");
        reveal_strlit("ms");
        reveal_strlit("seconds");
        reveal_strlit("second");
        reveal_strlit("secs");
        reveal_strlit("sec");
        reveal_strlit("s");
        reveal_strlit("minutes");
        reveal_strlit("minute");
        reveal_strlit("min");
        reveal_strlit("mins");
        reveal_strlit("m");
        reveal_strlit("hours");
        reveal_strlit("hour");
        reveal_strlit("hr");
        reveal_strlit("hrs");
        reveal_strlit("h");
        reveal_strlit("days");
        reveal_strlit("day");
        reveal_strlit("d");
        reveal_strlit("weeks");
        reveal_strlit("week");
        reveal_strlit("wk");
        reveal_strlit("wks");
        reveal_strlit("w");
        reveal_strlit("months");
        reveal_strlit("month");
        reveal_strlit("M");
        reveal_strlit("years");
        reveal_strlit("year");
        reveal_strlit("yr");
        reveal_strlit("yrs");
        reveal_strlit("y");
    }
    let micro = hi - lo == 2 && v[lo] == '\u{b5}' && v[lo + 1] == 's';
    proof {
        let sub = v@.subrange(lo as int, hi as int);
        if micro {
            assert(sub =~= seq!['\u{b5}', 's']);
        } else if sub == seq!['\u{b5}', 's'] {
            assert(sub.len() == 2 && sub[0] == '\u{b5}' && sub[1] == 's');
        }
    }
    if range_is(v, lo, hi, "nanos") || range_is(v, lo, hi, "nsec") || range_is(v, lo, hi, "ns") {
        Some(1)
    } else if range_is(v, lo, hi, "usec") || range_is(v, lo, hi, "us") || micro {
        Some(1_000)
    } else if range_is(v, lo, hi, "millis") || range_is(v, lo, hi, "msec") || range_is(
        v,
        lo,
        hi,
        "ms",
    ) {
        Some(1_000_000)
    } else if range_is(v, lo, hi, "seconds") || range_is(v, lo, hi, "second") || range_is(
        v,
        lo,
        hi,
        "secs",
    ) || range_is(v, lo, hi, "sec") || range_is(v, lo, hi, "s") {
        Some(1_000_000_000)
    } else if range_is(v, lo, hi, "minutes") || range_is(v, lo, hi, "minute") || range_is(
        v,
        lo,
        hi,
        "min",
    ) || range_is(v, lo, hi, "mins") || range_is(v, lo, hi, "m") {
        Some(60_000_000_000)
    } else if range_is(v, lo, hi, "hours") || range_is(v, lo, hi, "hour") || range_is(
        v,
        lo,
        hi,
        "hr",
    ) || range_is(v, lo, hi, "hrs") || range_is(v, lo, hi, "h") {
        Some(3_600_000_000_000)
    } else if range_is(v, lo, hi, "days") || range_is(v, lo, hi, "day") || range_is(
        v,
        lo,
        hi,
        "d",
    ) {
        Some(86_400_000_000_000)
    } else if range_is(v, lo, hi, "weeks") || range_is(v, lo, hi, "week") || range_is(
        v,
        lo,
        hi,
        "wk",
    ) || range_is(v, lo, hi, "wks") || range_is(v, lo, hi, "w") {
        Some(604_800_000_000_000)
    } else if range_is(v, lo, hi, "months") || range_is(v, lo, hi, "month") || range_is(
        v,
        lo,
        hi,
        "M",
    ) {
        Some(2_630_016_000_000_000)
    } else if range_is(v, lo, hi, "years") || range_is(v, lo, hi, "year") || range_is(
        v,
        lo,
        hi,
        "yr",
    ) || range_is(v, lo, hi, "yrs") || range_is(v, lo, hi, "y") {
        Some(31_557_600_000_000_000)
    } else {
        None
    }
}

/// `total + p * u`, where that stays within `MAX_NANOS`, else `None`;
/// computed without a product that could pass `u128`.
fn add_weighted(total: u128, p: u128, u: u128) -> (r: Option<u128>)
    requires
        total <= MAX_NANOS,
        p <= MAX_NANOS + 1,
        u >= 1,
    ensures
        total + p * u <= MAX_NANOS ==> r == Some((total + p * u) as u128),
        total + p * u > MAX_NANOS ==> r is None,
{
    let room = MAX_NANOS - total;
    let q = room / u;
    assert((p * u > room) == (p > q)) by (nonlinear_arith)
        requires
            u >= 1,
            q == room / u,
            p >= 0,
            room >= 0,
    ;
    if p > q {
        None
    } else {
        assert(p * u <= room) by (nonlinear_arith)
            requires
                p <= q,
                q == room / u,
                u >= 1,
                room >= 0,
        ;
        Some(total + p * u)
    }
}

/// The scan `st` with the word it reads ended, as `end_word` says, given
/// the word's place `v[lo..hi]`, the total and the capped pending count:
/// the new total, or `None` where it passes `MAX_NANOS`.
fn end_word_at(v: &Vec<char>, lo: usize, hi: usize, total: u128, pending: u128, Ghost(
    st,
): Ghost<SpanScan>) -> (r: Option<(u128, bool)>)
    requires
        lo < hi <= v@.len(),
        !st.stopped,
        st.word == v@.subrange(lo as int, hi as int),
        total == st.total,
        total <= MAX_NANOS,
        pending == capped(st.pending),
    ensures
        match r {
            None => end_word(st).total > MAX_NANOS,
            Some((t, stop)) => {
                &&& t == end_word(st).total
                &&& t <= MAX_NANOS
                &&& stop == end_word(st).stopped
                &&& end_word(st).word.len() == 0 || stop
                &&& !stop ==> end_word(st).pending == 0
                &&& stop ==> end_word(st) == SpanScan { stopped: true, ..st }
            },
        },
{
    match unit_nanos_at(v, lo, hi) {
        None => Some((total, true)),
        Some(u) => {
            proof {
                lemma_capped_weight(st.total, st.pending, u as nat);
            }
            match add_weighted(total, pending, u) {
                None => None,
                Some(t) => Some((t, false)),
            }
        },
    }
}

/// Whether the unit-weighted bound of `s` (`span_bound`) stays within the
/// largest `std::time::Duration`.
pub fn duration_bound_fits(s: &str) -> (b: bool)
    ensures
        b == span_bound_fits(s@),
{
    let v = chars_of(s);
    let n = v.len();
    let mut total: u128 = 0;
    let mut pending: u128 = 0;
    let mut current: u128 = 0;
    let mut word_len: usize = 0;
    let mut stopped = false;
    let mut i: usize = 0;
    while i < n
        invariant
            n == v@.len(),
            v@ == s@,
            i <= n,
            word_len <= i,
            total == span_scan(v@.take(i as int)).total,
            total <= MAX_NANOS,
            pending == capped(span_scan(v@.take(i as int)).pending),
            current == capped(span_scan(v@.take(i as int)).current),
            !stopped ==> span_scan(v@.take(i as int)).word == v@.subrange(i - word_len, i as int),
            stopped == span_scan(v@.take(i as int)).stopped,
        decreases n - i,
    {
        let ghost st = span_scan(v@.take(i as int));
        proof {
            assert(v@.take(i + 1).drop_last() =~= v@.take(i as int));
            assert(span_scan(v@.take(i + 1)) == span_step(st, v@[i as int]));
        }
        let c = v[i];
        if !stopped {
            if '0' <= c && c <= '9' {
                if word_len > 0 {
                    match end_word_at(&v, i - word_len, i, total, pending, Ghost(st)) {
                        None => {
                            proof {
                                lemma_span_total_within_bound(v@, i + 1);
                            }
                            return false;
                        },
                        Some((t, stop)) => {
                            total = t;
                            if stop {
                                stopped = true;
                            } else {
                                pending = 0;
                                word_len = 0;
                            }
                        },
                    }
                }
                if !stopped {
                    let d = (c as u32 - '0' as u32) as u128;
                    let next = current * 10 + d;
                    current = if next <= MAX_NANOS { next } else { MAX_NANOS + 1 };
                }
            } else if white_space(c) {
                if word_len > 0 {
                    match end_word_at(&v, i - word_len, i, total, pending, Ghost(st)) {
                        None => {
                            proof {
                                lemma_span_total_within_bound(v@, i + 1);
                            }
                            return false;
                        },
                        Some((t, stop)) => {
                            total = t;
                            if stop {
                                stopped = true;
                            } else {
                                pending = 0;
                                word_len = 0;
                            }
                        },
                    }
                }
            } else if ('a' <= c && c <= 'z') || ('A' <= c && c <= 'Z') || c == '\u{b5}' {
                let next = pending + current;
                pending = if next <= MAX_NANOS { next } else { MAX_NANOS + 1 };
                current = 0;
                word_len = word_len + 1;
            } else if c == '.' && word_len == 0 {
                let next = pending + current;
                pending = if next <= MAX_NANOS { next } else { MAX_NANOS + 1 };
                current = 0;
            } else {
                stopped = true;
            }
        }
        proof {
            if !stopped {
                assert(span_scan(v@.take(i + 1)).word =~= v@.subrange(i + 1 - word_len, i + 1));
            }
        }
        i = i + 1;
    }
    proof {
        assert(v@.take(n as int) =~= v@);
    }
    if !stopped && word_len > 0 {
        match end_word_at(&v, n - word_len, n, total, pending, Ghost(span_scan(v@))) {
            None => false,
            Some((t, _)) => t <= MAX_NANOS,
        }
    } else {
        true
    }
}

/// `humantime::parse_duration`: the span that `s` writes ("5s", "200ms",
/// "2m45s") as whole seconds and the nanoseconds beyond them, or the parse
/// error's message. The grammar it accepts is named, not written out, here;
/// the nanoseconds are below one second, as `std::time::Duration` keeps them.
/// It panics only where, after some part, its running total comes to
/// exactly `u64::MAX + 1` seconds (`Duration::new(u64::MAX, 1_000_000_000)`,
/// whose carry overflows); a larger total is its too-large error. It is
/// called only on texts whose unit-weighted bound (`span_bound_fits`) keeps
/// every running total within the largest `Duration`.
#[verifier::external_body]
pub(crate) fn parse_humantime(s: &str) -> (r: Result<(u64, u32), String>)
    requires
        span_bound_fits(s@),
    ensures
        match r {
            Ok(p) => humantime_parse(s@) == Ok::<(u64, u32), Seq<char>>(p) && p.1 < NANOS_PER_SEC,
            Err(m) => humantime_parse(s@) == Err::<(u64, u32), Seq<char>>(m@),
        },
{
    match humantime::parse_duration(s) {
        Ok(d) => Ok((d.as_secs(), d.subsec_nanos())),
        Err(e) => Err(e.to_string()),
    }
}

/// The message `humantime` gives for a number too large to read.
pub open spec fn too_large_message() -> Seq<char> {
    "number is too large or cannot be represented without a lack of precision (values below 1ns are not supported)"@
}

/// How a duration text reads: as `humantime` reads it, where its
/// unit-weighted bound fits (`span_bound_fits`); otherwise refused as too
/// large, with `humantime`'s own message for that.
pub open spec fn duration_reading(s: Seq<char>) -> Result<(u64, u32), Seq<char>> {
    if span_bound_fits(s) {
        humantime_parse(s)
    } else {
        Err(too_large_message())
    }
}

/// Reads a duration text as `duration_reading` says: by `humantime` where
/// its bound fits, else the too-large error, without calling the parser.
pub fn read_duration(s: &str) -> (r: Result<(u64, u32), String>)
    ensures
        match r {
            Ok(p) => duration_reading(s@) == Ok::<(u64, u32), Seq<char>>(p) && p.1 < NANOS_PER_SEC,
            Err(m) => duration_reading(s@) == Err::<(u64, u32), Seq<char>>(m@),
        },
{
    if duration_bound_fits(s) {
        parse_humantime(s)
    } else {
        let m = string_from(
            "number is too large or cannot be represented without a lack of precision (values below 1ns are not supported)",
        );
        Err(m)
    }
}

/// The span argument `s` for `field`, in nanoseconds, given the duration
/// parser's verdict `parsed` on it, or the message of the error.
pub open spec fn duration_arg_from(
    s: Seq<char>,
    field: Seq<char>,
    parsed: Result<(u64, u32), Seq<char>>,
) -> Result<nat, Seq<char>> {
    match parsed {
        Ok(p) => Ok((p.0 * NANOS_PER_SEC + p.1) as nat),
        Err(e) => Err(
            "Invalid "@ + field + " '"@ + s + "': "@ + e
                + ". Use format like '5s', '200ms', '2m45s'."@,
        ),
    }
}

/// The span argument `s` for `field`, in nanoseconds, or the message of
/// the error.
pub open spec fn duration_arg(s: Seq<char>, field: Seq<char>) -> Result<nat, Seq<char>> {
    duration_arg_from(s, field, duration_reading(s))
}

/// A duration argument read as `expected` says: its span, or an
/// `InvalidConfig` error with that message.
pub open spec fn duration_result_is(
    r: Result<Duration, BastionError>,
    expected: Result<nat, Seq<char>>,
) -> bool {
    match expected {
        Ok(n) => r matches Ok(d) && d.nanos() == n,
        Err(m) => r matches Err(e) && is_invalid_config(e, m),
    }
}

/// The span argument `s` for `field`, given the duration parser's verdict
/// `parsed` on it.
pub fn duration_arg_outcome(s: &str, field: &str, parsed: Result<(u64, u32), String>) -> (r:
    Result<Duration, BastionError>)
    requires
        parsed matches Ok(p) ==> p.1 < NANOS_PER_SEC,
    ensures
        duration_result_is(
            r,
            duration_arg_from(
                s@,
                field@,
                match parsed {
                    Ok(p) => Ok(p),
                    Err(m) => Err(m@),
                },
            ),
        ),
{
    match parsed {
        Ok(p) => Ok(Duration::new(p.0, p.1)),
        Err(e) => {
            let mut m = string_from("Invalid ");
            m.append(field);
            m.append(" '");
            m.append(s);
            m.append("': ");
            m.append(e.as_str());
            m.append(". Use format like '5s', '200ms', '2m45s'.");
            assert(m@ =~= "Invalid "@ + field@ + " '"@ + s@ + "': "@ + e@
                + ". Use format like '5s', '200ms', '2m45s'."@);
            Err(invalid_config(m))
        },
    }
}

/// Parses a human-readable duration like "5s", "200ms", "2m45s" given for
/// the argument `field`.
pub fn parse_duration_arg(s: &str, field: &str) -> (r: Result<Duration, BastionError>)
    ensures
        duration_result_is(r, duration_arg(s@, field@)),
{
    let parsed = read_duration(s);
    duration_arg_outcome(s, field, parsed)
}

/// Whether `i` is the position of the first ':' in `h`.
pub open spec fn first_colon_at(h: Seq<char>, i: int) -> bool {
    &&& 0 <= i < h.len()
    &&& h[i] == ':'
    &&& forall|j: int| 0 <= j < i ==> h[j] != ':'
}

/// The name and value of the header line `h`: the text before its first
/// ':' and the text after it, each trimmed of white space; `None` when `h`
/// has no ':'.
pub open spec fn header_parts(h: Seq<char>) -> Option<(Seq<char>, Seq<char>)> {
    if exists|i: int| first_colon_at(h, i) {
        let i = choose|i: int| first_colon_at(h, i);
        Some((trim(h.subrange(0, i)), trim(h.subrange(i + 1, h.len() as int))))
    } else {
        None
    }
}

/// The header map that the header lines `raw` give, later lines winning
/// over earlier ones with the same name, or the message for the first line
/// that is not of the form "Key: Value".
pub open spec fn headers_from(raw: Seq<Seq<char>>) -> Result<Map<Seq<char>, Seq<char>>, Seq<char>>
    decreases raw.len(),
{
    if raw.len() == 0 {
        Ok(Map::empty())
    } else {
        match headers_from(raw.drop_last()) {
            Err(m) => Err(m),
            Ok(map) => match header_parts(raw.last()) {
                None => Err(
                    "Invalid header '"@ + raw.last() + "': must be in 'Key: Value' format"@,
                ),
                Some(kv) => Ok(map.insert(kv.0, kv.1)),
            },
        }
    }
}

/// The texts of the strings `v`.
pub open spec fn texts(v: Seq<String>) -> Seq<Seq<char>> {
    v.map_values(|s: String| s@)
}

/// Parses "Key: Value" header lines into a header map.
pub fn parse_headers(raw: &Vec<String>) -> (r: Result<Headers, BastionError>)
    ensures
        match headers_from(texts(raw@)) {
            Ok(m) => r matches Ok(h) && h@ == m,
            Err(msg) => r matches Err(e) && is_invalid_config(e, msg),
        },
{
    let mut map = Headers::new();
    let n = raw.len();
    let mut k: usize = 0;
    while k < n
        invariant
            n == raw@.len(),
            k <= n,
            headers_from(texts(raw@).take(k as int)) == Ok::<
                Map<Seq<char>, Seq<char>>,
                Seq<char>,
            >(map@),
        decreases n - k,
    {
        let header = &raw[k];
        let v = chars_of(header.as_str());
        let len = v.len();
        assert(texts(raw@).take(k + 1).drop_last() =~= texts(raw@).take(k as int));
        assert(texts(raw@).take(k + 1).last() == v@);
        let mut i: usize = 0;
        while i < len && v[i] != ':'
            invariant
                len == v@.len(),
                i <= len,
                forall|j: int| 0 <= j < i ==> v@[j] != ':',
            decreases len - i,
        {
            i = i + 1;
        }
        if i == len {
            proof {
                assert(!exists|c: int| first_colon_at(v@, c));
            }
            let mut m = string_from("Invalid header '");
            m.append(header.as_str());
            m.append("': must be in 'Key: Value' format");
            proof {
                assert(headers_from(texts(raw@).take(k + 1)) is Err);
                lemma_headers_from_err_extends(texts(raw@), k as int + 1);
                assert(texts(raw@).take(n as int) =~= texts(raw@));
            }
            return Err(invalid_config(m));
        }
        proof {
            assert(first_colon_at(v@, i as int));
            let c = choose|c: int| first_colon_at(v@, c);
            assert(c == i) by {
                if c < i {
                    assert(v@[c] != ':');
                } else if c > i {
                    assert(v@[i as int] == ':');
                }
            }
        }
        let (a, b) = trim_bounds(&v, 0, i);
        let name = string_of(&v, a, b);
        let (c, d) = trim_bounds(&v, i + 1, len);
        let value = string_of(&v, c, d);
        map.insert(name, value);
        k = k + 1;
    }
    assert(texts(raw@).take(n as int) =~= texts(raw@));
    Ok(map)
}

/// Once a prefix of the header lines is refused, every longer prefix is
/// refused with the same message.
proof fn lemma_headers_from_err_extends(raw: Seq<Seq<char>>, k: int)
    requires
        0 <= k <= raw.len(),
        headers_from(raw.take(k)) is Err,
    ensures
        headers_from(raw) == headers_from(raw.take(k)),
    decreases raw.len() - k,
{
    if k < raw.len() {
        assert(raw.take(k + 1).drop_last() =~= raw.take(k));
        lemma_headers_from_err_extends(raw, k + 1);
    } else {
        assert(raw.take(k) =~= raw);
    }
}

/// The output format named by `l`, the already lower-cased argument.
pub open spec fn output_format_named(l: Seq<char>) -> Option<OutputFormat> {
    if l == "terminal"@ || l == "term"@ {
        Some(OutputFormat::Terminal)
    } else if l == "csv"@ {
        Some(OutputFormat::Csv)
    } else if l == "json"@ {
        Some(OutputFormat::Json)
    } else {
        None
    }
}

/// The message for an unknown output format `l`.
pub open spec fn output_format_error(l: Seq<char>) -> Seq<char> {
    "Invalid output format '"@ + l + "': must be one of 'terminal', 'csv', or 'json'"@
}

impl OutputFormat {
    /// The output format named by `lower`, the already lower-cased argument.
    pub fn from_lower(lower: &str) -> (r: Result<OutputFormat, BastionError>)
        ensures
            match output_format_named(lower@) {
                Some(f) => r == Ok::<OutputFormat, BastionError>(f),
                None => r matches Err(e) && is_invalid_config(e, output_format_error(lower@)),
            },
    {
        let v = chars_of(lower);
        let n = v.len();
        assert(v@.subrange(0, n as int) =~= lower@);
        if range_is(&v, 0, n, "terminal") || range_is(&v, 0, n, "term") {
            Ok(OutputFormat::Terminal)
        } else if range_is(&v, 0, n, "csv") {
            Ok(OutputFormat::Csv)
        } else if range_is(&v, 0, n, "json") {
            Ok(OutputFormat::Json)
        } else {
            let mut m = string_from("Invalid output format '");
            m.append(lower);
            m.append("': must be one of 'terminal', 'csv', or 'json'");
            Err(invalid_config(m))
        }
    }

    /// The output format named by `s`, in any letter case.
    pub fn from_name(s: &str) -> (r: Result<OutputFormat, BastionError>)
        ensures
            match output_format_named(lower_case(s@)) {
                Some(f) => r == Ok::<OutputFormat, BastionError>(f),
                None => r matches Err(e) && is_invalid_config(
                    e,
                    output_format_error(lower_case(s@)),
                ),
            },
    {
        let lower = to_lowercase(s);
        OutputFormat::from_lower(lower.as_str())
    }
}

/// The run mode's complaint for the arguments `c`, given the span that its
/// duration argument reads as (when it has one).
pub open spec fn cli_mode_error(c: BastionCli, span: nat) -> Option<Seq<char>> {
    if c.duration is Some {
        span_mode_error(span)
    } else {
        count_mode_error(
            match c.requests {
                Some(n) => n,
                None => 100,
            },
        )
    }
}

/// The first error that turning the arguments `c` into a configuration
/// meets, as its message; `None` when it succeeds.
pub open spec fn cli_error(c: BastionCli) -> Option<Seq<char>> {
    let timeout = duration_arg(c.timeout@, "timeout"@);
    let upper = upper_case(c.method@);
    let headers = headers_from(texts(c.headers@));
    let warmup = match c.warmup {
        Some(w) => duration_arg(w@, "warmup"@),
        None => Ok(0nat),
    };
    let lower = lower_case(c.output_format@);
    let span = match c.duration {
        Some(d) => duration_arg(d@, "duration"@),
        None => Ok(0nat),
    };
    if timeout is Err {
        Some(timeout->Err_0)
    } else if method_named(upper) is None {
        Some("Invalid HTTP method: "@ + upper)
    } else if headers is Err {
        Some(headers->Err_0)
    } else if warmup is Err {
        Some(warmup->Err_0)
    } else if output_format_named(lower) is None {
        Some(output_format_error(lower))
    } else if span is Err {
        Some(span->Err_0)
    } else {
        settings_error(
            c.url@,
            url_parse_error(c.url@),
            cli_mode_error(c, span->Ok_0),
            c.concurrency,
            c.rate_limit,
            c.http2,
            !c.no_keep_alive,
        )
    }
}

impl BastionCli {
    /// Converts the raw arguments into a validated configuration: the
    /// timeout, warmup and duration parse as spans, the method and output
    /// format are known names in any case, the headers are "Key: Value"
    /// lines, a duration argument selects a timed run and otherwise the
    /// request count (100 by default) a counted one, and the result passes
    /// `Config::validate`. The first failure gives the error.
    pub fn into_config(self) -> (r: Result<Config, BastionError>)
        requires
            self.concurrency <= usize::MAX / 2,
        ensures
            match cli_error(self) {
                Some(m) => r matches Err(e) && is_invalid_config(e, m),
                None => r matches Ok(c) && {
                    &&& c.url@ == self.url@
                    &&& match self.duration {
                        Some(d) => c.run_mode matches RunMode::Duration(s) && Ok::<
                            nat,
                            Seq<char>,
                        >(s.nanos()) == duration_arg(d@, "duration"@),
                        None => c.run_mode == RunMode::RequestCount(
                            match self.requests {
                                Some(n) => n,
                                None => 100,
                            },
                        ),
                    }
                    &&& c.concurrency == self.concurrency
                    &&& c.rate_limit == self.rate_limit
                    &&& Ok::<nat, Seq<char>>(c.timeout.nanos()) == duration_arg(
                        self.timeout@,
                        "timeout"@,
                    )
                    &&& Some(c.method) == method_named(upper_case(self.method@))
                    &&& c.body == self.body
                    &&& Ok::<Map<Seq<char>, Seq<char>>, Seq<char>>(c.headers@) == headers_from(
                        texts(self.headers@),
                    )
                    &&& Some(c.output_format) == output_format_named(
                        lower_case(self.output_format@),
                    )
                    &&& c.output_file == self.output_file
                    &&& c.progress == !self.no_progress
                    &&& c.keep_alive == !self.no_keep_alive
                    &&& c.follow_redirects == self.follow_redirects
                    &&& match self.warmup {
                        Some(w) => c.warmup matches Some(s) && Ok::<nat, Seq<char>>(s.nanos())
                            == duration_arg(w@, "warmup"@),
                        None => c.warmup is None,
                    }
                    &&& c.channel_capacity == self.concurrency * 2
                    &&& c.http2 == self.http2
                    &&& c.assertions == self.assertions
                    &&& c.compare == self.compare
                    &&& c.csv_file == self.csv_file
                },
            },
    {
        let timeout = match parse_duration_arg(self.timeout.as_str(), "timeout") {
            Ok(t) => t,
            Err(e) => return Err(e),
        };
        let method = match HttpMethod::from_str(self.method.as_str()) {
            Ok(m) => m,
            Err(e) => return Err(e),
        };
        let headers = match parse_headers(&self.headers) {
            Ok(h) => h,
            Err(e) => return Err(e),
        };
        let warmup = match &self.warmup {
            Some(w) => match parse_duration_arg(w.as_str(), "warmup") {
                Ok(d) => Some(d),
                Err(e) => return Err(e),
            },
            None => None,
        };
        let output_format = match OutputFormat::from_name(self.output_format.as_str()) {
            Ok(f) => f,
            Err(e) => return Err(e),
        };
        let run_mode = match &self.duration {
            Some(d) => match parse_duration_arg(d.as_str(), "duration") {
                Ok(dur) => RunMode::Duration(dur),
                Err(e) => return Err(e),
            },
            None => {
                let n = match self.requests {
                    Some(n) => n,
                    None => 100,
                };
                RunMode::RequestCount(n)
            },
        };
        let concurrency = self.concurrency;
        let config = Config {
            url: self.url,
            run_mode,
            concurrency,
            rate_limit: self.rate_limit,
            timeout,
            method,
            body: self.body,
            headers,
            output_format,
            output_file: self.output_file,
            progress: !self.no_progress,
            keep_alive: !self.no_keep_alive,
            follow_redirects: self.follow_redirects,
            warmup,
            channel_capacity: concurrency * 2,
            http2: self.http2,
            assertions: self.assertions,
            compare: self.compare,
            csv_file: self.csv_file,
        };
        match config.validate() {
            Ok(()) => Ok(config),
            Err(e) => Err(e),
        }
    }
}

} // verus!
