//! Threshold assertions: their syntax ("p99<200ms", "error-rate<1%",
//! "rps>50"), their labels, and the verdicts on latency thresholds.

use vstd::prelude::*;
use vstd::string::StringExecFns;
use crate::cli::{duration_reading, read_duration};
use crate::error::{BastionError, invalid_config, is_invalid_config};
use crate::metrics::snapshot::LatencySnapshot;
use crate::text::{chars_of, decimal, push_decimal, range_is, string_from, string_of, trim, trim_bounds};
use crate::time::{Duration, NANOS_PER_SEC};

verus! {

/// A limit that a run's metrics must meet.
///
/// The error-rate and throughput limits are decimal numbers, which the
/// application reads as floating-point values; they are kept here as the
/// text the user wrote, checked to be a number that `f64`'s parser accepts.
#[derive(Debug, Clone)]
pub enum Threshold {
    /// The 99th percentile latency stays below the limit.
    P99Lt(Duration),
    /// The 95th percentile latency stays below the limit.
    P95Lt(Duration),
    /// The 90th percentile latency stays below the limit.
    P90Lt(Duration),
    /// The median latency stays below the limit.
    P50Lt(Duration),
    /// The mean latency stays below the limit.
    MeanLt(Duration),
    /// The error rate stays below this many percent.
    ErrorRateLt(String),
    /// The throughput stays above this many requests per second.
    RpsGt(String),
}

/// The verdict on one threshold.
#[derive(Debug, Clone)]
pub struct ThresholdResult {
    pub threshold: Threshold,
    pub passed: bool,
    pub actual: String,
    pub expected: String,
}

// ------------------------------------------------------------------------
// Decimal numbers as `f64::from_str` accepts them.
// ------------------------------------------------------------------------

/// A decimal digit.
pub open spec fn is_digit(c: char) -> bool {
    '0' <= c <= '9'
}

/// Every character of `s` is a decimal digit.
pub open spec fn all_digits(s: Seq<char>) -> bool {
    forall|i: int| 0 <= i < s.len() ==> is_digit(#[trigger] s[i])
}

/// The code of `c` with an ASCII capital letter made small.
pub open spec fn ascii_lower(c: char) -> u32 {
    if 'A' <= c <= 'Z' {
        ((c as u32) + 32) as u32
    } else {
        c as u32
    }
}

/// Whether `s` and `word` agree but for the case of ASCII letters.
pub open spec fn eq_ignore_ascii_case(s: Seq<char>, word: Seq<char>) -> bool {
    s.len() == word.len() && forall|i: int| 0 <= i < s.len() ==> ascii_lower(#[trigger] s[i])
        == ascii_lower(word[i])
}

/// Digits with at most one '.', and at least one digit.
pub open spec fn is_mantissa(m: Seq<char>) -> bool {
    ||| m.len() > 0 && all_digits(m)
    ||| exists|d: int|
        0 <= d < m.len() && m[d] == '.' && all_digits(m.subrange(0, d)) && all_digits(
            m.subrange(d + 1, m.len() as int),
        ) && m.len() > 1
}

/// An optional sign followed by at least one digit.
pub open spec fn is_exponent(x: Seq<char>) -> bool {
    if x.len() > 0 && (x[0] == '+' || x[0] == '-') {
        x.len() > 1 && all_digits(x.drop_first())
    } else {
        x.len() > 0 && all_digits(x)
    }
}

/// A mantissa with an optional exponent introduced by 'e' or 'E'.
pub open spec fn is_unsigned_number(u: Seq<char>) -> bool {
    ||| is_mantissa(u)
    ||| exists|e: int|
        0 <= e < u.len() && (u[e] == 'e' || u[e] == 'E') && is_mantissa(u.subrange(0, e))
            && is_exponent(u.subrange(e + 1, u.len() as int))
}

/// The strings that `f64::from_str` accepts, by the grammar its
/// documentation gives: an optional sign, then "inf", "infinity" or "nan"
/// in any case, or a number of digits with an optional '.' and an optional
/// exponent.
pub open spec fn is_float_literal(s: Seq<char>) -> bool {
    let u = if s.len() > 0 && (s[0] == '+' || s[0] == '-') {
        s.drop_first()
    } else {
        s
    };
    ||| eq_ignore_ascii_case(u, "inf"@)
    ||| eq_ignore_ascii_case(u, "infinity"@)
    ||| eq_ignore_ascii_case(u, "nan"@)
    ||| is_unsigned_number(u)
}

fn is_digit_char(c: char) -> (b: bool)
    ensures
        b == is_digit(c),
{
    '0' <= c && c <= '9'
}

fn lower_char(c: char) -> (r: u32)
    ensures
        r == ascii_lower(c),
{
    if 'A' <= c && c <= 'Z' {
        (c as u32) + 32
    } else {
        c as u32
    }
}

fn digits_in(v: &Vec<char>, lo: usize, hi: usize) -> (b: bool)
    requires
        lo <= hi <= v@.len(),
    ensures
        b == all_digits(v@.subrange(lo as int, hi as int)),
{
    let mut i: usize = lo;
    while i < hi
        invariant
            lo <= i <= hi <= v@.len(),
            forall|j: int| lo <= j < i ==> is_digit(v@[j]),
        decreases hi - i,
    {
        if !is_digit_char(v[i]) {
            assert(!is_digit(v@.subrange(lo as int, hi as int)[i - lo]));
            return false;
        }
        i = i + 1;
    }
    assert forall|j: int| 0 <= j < hi - lo implies is_digit(
        #[trigger] v@.subrange(lo as int, hi as int)[j],
    ) by {
        assert(v@.subrange(lo as int, hi as int)[j] == v@[lo + j]);
    }
    true
}

fn word_in(v: &Vec<char>, lo: usize, hi: usize, word: &str) -> (b: bool)
    requires
        lo <= hi <= v@.len(),
    ensures
        b == eq_ignore_ascii_case(v@.subrange(lo as int, hi as int), word@),
{
    let w = chars_of(word);
    if hi - lo != w.len() {
        return false;
    }
    let mut i: usize = 0;
    while i < w.len()
        invariant
            w@ == word@,
            hi - lo == w@.len(),
            lo <= hi <= v@.len(),
            i <= w@.len(),
            forall|j: int| 0 <= j < i ==> ascii_lower(v@[lo + j]) == ascii_lower(w@[j]),
        decreases w@.len() - i,
    {
        if lower_char(v[lo + i]) != lower_char(w[i]) {
            assert(ascii_lower(v@.subrange(lo as int, hi as int)[i as int]) != ascii_lower(
                word@[i as int],
            ));
            return false;
        }
        i = i + 1;
    }
    assert forall|j: int| 0 <= j < hi - lo implies ascii_lower(
        #[trigger] v@.subrange(lo as int, hi as int)[j],
    ) == ascii_lower(word@[j]) by {
        assert(v@.subrange(lo as int, hi as int)[j] == v@[lo + j]);
    }
    true
}

fn mantissa_in(v: &Vec<char>, lo: usize, hi: usize) -> (b: bool)
    requires
        lo <= hi <= v@.len(),
    ensures
        b == is_mantissa(v@.subrange(lo as int, hi as int)),
{
    let ghost m = v@.subrange(lo as int, hi as int);
    let mut d: usize = lo;
    while d < hi && v[d] != '.'
        invariant
            lo <= d <= hi <= v@.len(),
            forall|j: int| lo <= j < d ==> v@[j] != '.',
        decreases hi - d,
    {
        d = d + 1;
    }
    if d == hi {
        let b = hi > lo && digits_in(v, lo, hi);
        proof {
            if !b && is_mantissa(m) {
                if !(m.len() > 0 && all_digits(m)) {
                    let k = choose|k: int|
                        0 <= k < m.len() && m[k] == '.' && all_digits(m.subrange(0, k))
                            && all_digits(m.subrange(k + 1, m.len() as int)) && m.len() > 1;
                    assert(v@[lo + k] == '.');
                }
            }
        }
        b
    } else {
        let b = digits_in(v, lo, d) && digits_in(v, d + 1, hi) && hi - lo > 1;
        proof {
            let k = d - lo;
            assert(m[k] == '.');
            assert(m.subrange(0, k) =~= v@.subrange(lo as int, d as int));
            assert(m.subrange(k + 1, m.len() as int) =~= v@.subrange(d + 1, hi as int));
            if m.len() > 0 && all_digits(m) {
                assert(is_digit(m[k]));
            }
            if !b && is_mantissa(m) {
                let k2 = choose|k2: int|
                    0 <= k2 < m.len() && m[k2] == '.' && all_digits(m.subrange(0, k2))
                        && all_digits(m.subrange(k2 + 1, m.len() as int)) && m.len() > 1;
                if k2 < k {
                    assert(v@[lo + k2] == '.');
                } else if k2 > k {
                    assert(is_digit(m.subrange(0, k2)[k]));
                }
            }
        }
        b
    }
}

fn exponent_in(v: &Vec<char>, lo: usize, hi: usize) -> (b: bool)
    requires
        lo <= hi <= v@.len(),
    ensures
        b == is_exponent(v@.subrange(lo as int, hi as int)),
{
    let ghost x = v@.subrange(lo as int, hi as int);
    if lo < hi && (v[lo] == '+' || v[lo] == '-') {
        assert(x.drop_first() =~= v@.subrange(lo + 1, hi as int));
        hi - lo > 1 && digits_in(v, lo + 1, hi)
    } else {
        hi > lo && digits_in(v, lo, hi)
    }
}

fn unsigned_number_in(v: &Vec<char>, lo: usize, hi: usize) -> (b: bool)
    requires
        lo <= hi <= v@.len(),
    ensures
        b == is_unsigned_number(v@.subrange(lo as int, hi as int)),
{
    let ghost u = v@.subrange(lo as int, hi as int);
    let mut e: usize = lo;
    while e < hi && v[e] != 'e' && v[e] != 'E'
        invariant
            lo <= e <= hi <= v@.len(),
            forall|j: int| lo <= j < e ==> v@[j] != 'e' && v@[j] != 'E',
        decreases hi - e,
    {
        e = e + 1;
    }
    if e == hi {
        let b = mantissa_in(v, lo, hi);
        proof {
            if !b && is_unsigned_number(u) {
                let k = choose|k: int|
                    0 <= k < u.len() && (u[k] == 'e' || u[k] == 'E') && is_mantissa(
                        u.subrange(0, k),
                    ) && is_exponent(u.subrange(k + 1, u.len() as int));
                assert(v@[lo + k] == u[k]);
            }
        }
        b
    } else {
        let whole = mantissa_in(v, lo, hi);
        let split = mantissa_in(v, lo, e) && exponent_in(v, e + 1, hi);
        proof {
            let k = e - lo;
            assert(u[k] == 'e' || u[k] == 'E');
            assert(u.subrange(0, k) =~= v@.subrange(lo as int, e as int));
            assert(u.subrange(k + 1, u.len() as int) =~= v@.subrange(e + 1, hi as int));
            if is_mantissa(u) {
                if u.len() > 0 && all_digits(u) {
                    assert(is_digit(u[k]));
                } else {
                    let d = choose|d: int|
                        0 <= d < u.len() && u[d] == '.' && all_digits(u.subrange(0, d))
                            && all_digits(u.subrange(d + 1, u.len() as int)) && u.len() > 1;
                    if k < d {
                        assert(is_digit(u.subrange(0, d)[k]));
                    } else if k > d {
                        assert(is_digit(u.subrange(d + 1, u.len() as int)[k - d - 1]));
                    }
                }
            }
            if !split && is_unsigned_number(u) && !is_mantissa(u) {
                let k2 = choose|k2: int|
                    0 <= k2 < u.len() && (u[k2] == 'e' || u[k2] == 'E') && is_mantissa(
                        u.subrange(0, k2),
                    ) && is_exponent(u.subrange(k2 + 1, u.len() as int));
                if k2 < k {
                    assert(v@[lo + k2] == u[k2]);
                } else if k2 > k {
                    let mm = u.subrange(0, k2);
                    assert(mm[k] == u[k]);
                    if mm.len() > 0 && all_digits(mm) {
                        assert(is_digit(mm[k]));
                    } else {
                        let d = choose|d: int|
                            0 <= d < mm.len() && mm[d] == '.' && all_digits(mm.subrange(0, d))
                                && all_digits(mm.subrange(d + 1, mm.len() as int)) && mm.len()
                                > 1;
                        if k < d {
                            assert(is_digit(mm.subrange(0, d)[k]));
                        } else if k > d {
                            assert(is_digit(mm.subrange(d + 1, mm.len() as int)[k - d - 1]));
                        }
                    }
                }
            }
        }
        whole || split
    }
}

/// Whether `v[lo..hi]` is a decimal number that `f64::from_str` accepts.
pub fn float_literal_in(v: &Vec<char>, lo: usize, hi: usize) -> (b: bool)
    requires
        lo <= hi <= v@.len(),
    ensures
        b == is_float_literal(v@.subrange(lo as int, hi as int)),
{
    let ghost s = v@.subrange(lo as int, hi as int);
    let start = if lo < hi && (v[lo] == '+' || v[lo] == '-') {
        lo + 1
    } else {
        lo
    };
    assert(v@.subrange(start as int, hi as int) =~= if s.len() > 0 && (s[0] == '+' || s[0]
        == '-') {
        s.drop_first()
    } else {
        s
    });
    word_in(v, start, hi, "inf") || word_in(v, start, hi, "infinity") || word_in(
        v,
        start,
        hi,
        "nan",
    ) || unsigned_number_in(v, start, hi)
}

// ------------------------------------------------------------------------
// Threshold syntax.
// ------------------------------------------------------------------------

/// Whether `p` is the first '<' or '>' in `t`.
pub open spec fn first_comparison_at(t: Seq<char>, p: int) -> bool {
    &&& 0 <= p < t.len()
    &&& (t[p] == '<' || t[p] == '>')
    &&& forall|j: int| 0 <= j < p ==> t[j] != '<' && t[j] != '>'
}

/// `s` without the '%' signs at its end.
pub open spec fn trim_percent(s: Seq<char>) -> Seq<char>
    decreases s.len(),
{
    if s.len() > 0 && s.last() == '%' {
        trim_percent(s.drop_last())
    } else {
        s
    }
}

/// The message for a threshold that matches no known form.
pub open spec fn unknown_threshold(t: Seq<char>) -> Seq<char> {
    "Unknown threshold format: '"@ + t
        + "'. expected pattern like 'p99<100ms', 'rps>1000', error-rate<1%', 'mean<50ms'"@
}

/// What a latency limit `val` reads as: the limit in nanoseconds, or the
/// message of the error, given the duration parser's verdict on it.
pub open spec fn latency_limit_from(val: Seq<char>, parsed: Result<(u64, u32), Seq<char>>) -> Result<
    nat,
    Seq<char>,
> {
    match parsed {
        Ok(p) => Ok((p.0 * NANOS_PER_SEC + p.1) as nat),
        Err(e) => Err("Invalid duration: '"@ + val + "': "@ + e),
    }
}

/// The kind of the assertion `s` (trimmed): 0 to 4 for the latency
/// thresholds `p99`, `p95`, `p90`, `p50` and `mean` with '<'; 5 for
/// `error-rate` or `error_rate` with '<'; 6 for `rps` with '>'; 7 for any
/// other name and comparison; 8 when it has no '<' or '>'. The name is the
/// trimmed text before the first '<' or '>'.
pub open spec fn threshold_kind(s: Seq<char>) -> int {
    let t = trim(s);
    if exists|p: int| first_comparison_at(t, p) {
        let p = choose|p: int| first_comparison_at(t, p);
        let name = trim(t.subrange(0, p));
        let op = t[p];
        if op == '<' && name == "p99"@ {
            0
        } else if op == '<' && name == "p95"@ {
            1
        } else if op == '<' && name == "p90"@ {
            2
        } else if op == '<' && name == "p50"@ {
            3
        } else if op == '<' && name == "mean"@ {
            4
        } else if op == '<' && (name == "error-rate"@ || name == "error_rate"@) {
            5
        } else if op == '>' && name == "rps"@ {
            6
        } else {
            7
        }
    } else {
        8
    }
}

/// The reading of the assertion `s`, given the duration parser's verdict
/// `parsed` on its value (read only for a latency threshold), in the shape
/// of `Threshold` with limits as spans in nanoseconds and numbers as text;
/// or the message of the error.
///
/// The assertion is read after trimming white space: a metric name, the
/// first '<' or '>', then the value. A latency threshold's value goes to
/// the duration parser as it stands (its message quotes it so); a
/// percentage (trailing '%' signs dropped) or a number is trimmed first.
pub open spec fn threshold_reading(s: Seq<char>, parsed: Result<(u64, u32), Seq<char>>) -> Result<
    (int, nat, Seq<char>),
    Seq<char>,
> {
    let t = trim(s);
    let kind = threshold_kind(s);
    if kind == 8 {
        Err(unknown_threshold(t))
    } else {
        let p = choose|p: int| first_comparison_at(t, p);
        let raw = t.subrange(p + 1, t.len() as int);
        let val = trim(raw);
        if kind <= 4 {
            match latency_limit_from(raw, parsed) {
                Ok(n) => Ok((kind, n, val)),
                Err(m) => Err(m),
            }
        } else if kind == 5 {
            if is_float_literal(trim_percent(val)) {
                Ok((kind, 0, trim_percent(val)))
            } else {
                Err("Invalid error rate: '"@ + val + "': expected percentage"@)
            }
        } else if kind == 6 {
            if is_float_literal(val) {
                Ok((kind, 0, val))
            } else {
                Err("Invalid RPS: '"@ + val + "': expected number"@)
            }
        } else {
            Err(unknown_threshold(t))
        }
    }
}

/// The value text of the assertion `s`, when it has a comparison: what
/// follows the first '<' or '>' of the trimmed assertion, as the duration
/// parser is given it for a latency threshold.
pub open spec fn threshold_value(s: Seq<char>) -> Seq<char> {
    let t = trim(s);
    let p = choose|p: int| first_comparison_at(t, p);
    t.subrange(p + 1, t.len() as int)
}

/// Whether the threshold `th` is the reading `(kind, limit, text)`.
pub open spec fn threshold_is(th: Threshold, reading: (int, nat, Seq<char>)) -> bool {
    match th {
        Threshold::P99Lt(d) => reading.0 == 0 && d.nanos() == reading.1,
        Threshold::P95Lt(d) => reading.0 == 1 && d.nanos() == reading.1,
        Threshold::P90Lt(d) => reading.0 == 2 && d.nanos() == reading.1,
        Threshold::P50Lt(d) => reading.0 == 3 && d.nanos() == reading.1,
        Threshold::MeanLt(d) => reading.0 == 4 && d.nanos() == reading.1,
        Threshold::ErrorRateLt(x) => reading.0 == 5 && x@ == reading.2,
        Threshold::RpsGt(x) => reading.0 == 6 && x@ == reading.2,
    }
}

/// A parse that came out as `reading` says.
pub open spec fn parse_result_is(
    r: Result<Threshold, BastionError>,
    reading: Result<(int, nat, Seq<char>), Seq<char>>,
) -> bool {
    match reading {
        Ok(x) => r matches Ok(th) && threshold_is(th, x),
        Err(m) => r matches Err(e) && is_invalid_config(e, m),
    }
}

// ------------------------------------------------------------------------
// What a latency threshold reads as.
// ------------------------------------------------------------------------

/// The first comparison of a trimmed assertion is the one the reading
/// splits at, and a latency metric's name picks its kind.
proof fn lemma_latency_name_kind(s: Seq<char>, p: int)
    requires
        first_comparison_at(trim(s), p),
        trim(s)[p] == '<',
    ensures
        (choose|q: int| first_comparison_at(trim(s), q)) == p,
        trim(trim(s).subrange(0, p)) == "p99"@ ==> threshold_kind(s) == 0,
        trim(trim(s).subrange(0, p)) == "p95"@ ==> threshold_kind(s) == 1,
        trim(trim(s).subrange(0, p)) == "p90"@ ==> threshold_kind(s) == 2,
        trim(trim(s).subrange(0, p)) == "p50"@ ==> threshold_kind(s) == 3,
        trim(trim(s).subrange(0, p)) == "mean"@ ==> threshold_kind(s) == 4,
{
    let t = trim(s);
    let q = choose|q: int| first_comparison_at(t, q);
    assert(q == p) by {
        if q < p {
            assert(t[q] != '<' && t[q] != '>');
        } else if q > p {
            assert(t[p] != '<' && t[p] != '>');
        }
    }
    reveal_strlit("p99");
    reveal_strlit("p95");
    reveal_strlit("p90");
    reveal_strlit("p50");
    reveal_strlit("mean");
    let name = trim(t.subrange(0, p));
    if name == "p95"@ {
        assert(name[2] != "p99"@[2]);
    }
    if name == "p90"@ {
        assert(name[2] != "p99"@[2]);
        assert(name[2] != "p95"@[2]);
    }
    if name == "p50"@ {
        assert(name[1] != "p99"@[1]);
        assert(name[1] != "p95"@[1]);
        assert(name[1] != "p90"@[1]);
    }
    if name == "mean"@ {
        assert(name.len() != "p99"@.len());
        assert(name.len() != "p95"@.len());
        assert(name.len() != "p90"@.len());
        assert(name.len() != "p50"@.len());
    }
}

/// A latency assertion reads as a limit on the figure its name names: where
/// the trimmed assertion's first comparison is a '<' at `p` and the trimmed
/// name before it is `p99`, `p95`, `p90`, `p50` or `mean`, a parse `r` with
/// the duration parser's verdict `parsed` on the value is a limit on the
/// 99th, 95th, 90th percentile, the median or the mean latency in turn, of
/// the span the parser read; and where the parser refused the value, the
/// assertion is refused.
pub proof fn law_latency_threshold_names_its_figure(
    s: Seq<char>,
    p: int,
    parsed: Result<(u64, u32), Seq<char>>,
    r: Result<Threshold, BastionError>,
)
    requires
        first_comparison_at(trim(s), p),
        trim(s)[p] == '<',
        parse_result_is(r, threshold_reading(s, parsed)),
    ensures
        ({
            let name = trim(trim(s).subrange(0, p));
            &&& parsed matches Ok(q) ==> {
                let n = q.0 * NANOS_PER_SEC + q.1;
                &&& name == "p99"@ ==> (r matches Ok(Threshold::P99Lt(d)) && d.nanos() == n)
                &&& name == "p95"@ ==> (r matches Ok(Threshold::P95Lt(d)) && d.nanos() == n)
                &&& name == "p90"@ ==> (r matches Ok(Threshold::P90Lt(d)) && d.nanos() == n)
                &&& name == "p50"@ ==> (r matches Ok(Threshold::P50Lt(d)) && d.nanos() == n)
                &&& name == "mean"@ ==> (r matches Ok(Threshold::MeanLt(d)) && d.nanos() == n)
            }
            &&& parsed is Err ==> (name == "p99"@ || name == "p95"@ || name == "p90"@ || name
                == "p50"@ || name == "mean"@) ==> r is Err
        }),
{
    lemma_latency_name_kind(s, p);
}

/// Where the trimmed assertion `s` has its first comparison at `p`: an
/// error-rate name with '<' reads as a limit on the error rate, of the
/// value without its '%' signs where that is a number (refused otherwise);
/// `rps` with '>' reads as a floor on the throughput, of the value where it
/// is a number (refused otherwise); and any other name with '>' is refused.
pub open spec fn rate_threshold_read(s: Seq<char>, p: int, r: Result<Threshold, BastionError>) -> bool {
    let t = trim(s);
    let name = trim(t.subrange(0, p));
    let val = trim(t.subrange(p + 1, t.len() as int));
    &&& (t[p] == '<' && (name == "error-rate"@ || name == "error_rate"@)) ==> {
        &&& is_float_literal(trim_percent(val)) ==> (r matches Ok(Threshold::ErrorRateLt(x))
            && x@ == trim_percent(val))
        &&& !is_float_literal(trim_percent(val)) ==> r is Err
    }
    &&& (t[p] == '>' && name == "rps"@) ==> {
        &&& is_float_literal(val) ==> (r matches Ok(Threshold::RpsGt(x)) && x@ == val)
        &&& !is_float_literal(val) ==> r is Err
    }
    &&& (t[p] == '>' && name != "rps"@) ==> r is Err
}

/// The kinds of the error-rate and throughput assertions.
proof fn lemma_rate_name_kind(s: Seq<char>, p: int)
    requires
        first_comparison_at(trim(s), p),
    ensures
        (choose|q: int| first_comparison_at(trim(s), q)) == p,
        trim(s)[p] == '<' && (trim(trim(s).subrange(0, p)) == "error-rate"@ || trim(
            trim(s).subrange(0, p),
        ) == "error_rate"@) ==> threshold_kind(s) == 5,
        trim(s)[p] == '>' && trim(trim(s).subrange(0, p)) == "rps"@ ==> threshold_kind(s) == 6,
        trim(s)[p] == '>' && trim(trim(s).subrange(0, p)) != "rps"@ ==> threshold_kind(s) == 7,
{
    let t = trim(s);
    let q = choose|q: int| first_comparison_at(t, q);
    assert(q == p) by {
        if q < p {
            assert(t[q] != '<' && t[q] != '>');
        } else if q > p {
            assert(t[p] != '<' && t[p] != '>');
        }
    }
    reveal_strlit("p99");
    reveal_strlit("p95");
    reveal_strlit("p90");
    reveal_strlit("p50");
    reveal_strlit("mean");
    reveal_strlit("error-rate");
    reveal_strlit("error_rate");
    let name = trim(t.subrange(0, p));
    if name == "error-rate"@ || name == "error_rate"@ {
        assert(name.len() == 10);
        assert("p99"@.len() == 3 && "p95"@.len() == 3 && "p90"@.len() == 3);
        assert("p50"@.len() == 3 && "mean"@.len() == 4);
    }
}

/// An error-rate or throughput assertion reads as a limit on the figure
/// its name names (see `rate_threshold_read`), whatever the duration
/// parser's verdict `parsed`.
pub proof fn law_rate_threshold_names_its_figure(
    s: Seq<char>,
    p: int,
    parsed: Result<(u64, u32), Seq<char>>,
    r: Result<Threshold, BastionError>,
)
    requires
        first_comparison_at(trim(s), p),
        parse_result_is(r, threshold_reading(s, parsed)),
    ensures
        rate_threshold_read(s, p, r),
{
    lemma_rate_name_kind(s, p);
}

/// The position of the first '<' or '>' in `v[lo..hi]`, or `hi`.
fn find_comparison(v: &Vec<char>, lo: usize, hi: usize) -> (p: usize)
    requires
        lo <= hi <= v@.len(),
    ensures
        lo <= p <= hi,
        p < hi ==> (v@[p as int] == '<' || v@[p as int] == '>'),
        forall|j: int| lo <= j < p ==> v@[j] != '<' && v@[j] != '>',
{
    let mut p: usize = lo;
    while p < hi && v[p] != '<' && v[p] != '>'
        invariant
            lo <= p <= hi <= v@.len(),
            forall|j: int| lo <= j < p ==> v@[j] != '<' && v@[j] != '>',
        decreases hi - p,
    {
        p = p + 1;
    }
    p
}

/// The end of `v[lo..hi]` once its trailing '%' signs are dropped.
fn trim_percent_end(v: &Vec<char>, lo: usize, hi: usize) -> (e: usize)
    requires
        lo <= hi <= v@.len(),
    ensures
        lo <= e <= hi,
        v@.subrange(lo as int, e as int) == trim_percent(v@.subrange(lo as int, hi as int)),
{
    let mut e: usize = hi;
    while e > lo && v[e - 1] == '%'
        invariant
            lo <= e <= hi <= v@.len(),
            trim_percent(v@.subrange(lo as int, hi as int)) == trim_percent(
                v@.subrange(lo as int, e as int),
            ),
        decreases e - lo,
    {
        assert(v@.subrange(lo as int, e as int).drop_last() =~= v@.subrange(lo as int, e - 1));
        e = e - 1;
    }
    e
}

/// Reads a threshold assertion, given the assertion `s` and the duration
/// parser's verdict `parsed` on its value (used only for latency
/// thresholds). A latency assertion is a limit on the figure its name
/// names, of the span the parser read.
pub fn threshold_from(s: &str, parsed: Result<(u64, u32), String>) -> (r: Result<
    Threshold,
    BastionError,
>)
    requires
        parsed matches Ok(p) ==> p.1 < NANOS_PER_SEC,
    ensures
        parse_result_is(
            r,
            threshold_reading(
                s@,
                match parsed {
                    Ok(p) => Ok(p),
                    Err(m) => Err(m@),
                },
            ),
        ),
        forall|p: int|
            #![trigger first_comparison_at(trim(s@), p)]
            first_comparison_at(trim(s@), p) && trim(s@)[p] == '<' ==> {
                let name = trim(trim(s@).subrange(0, p));
                &&& parsed matches Ok(q) ==> {
                    let n = q.0 * NANOS_PER_SEC + q.1;
                    &&& name == "p99"@ ==> (r matches Ok(Threshold::P99Lt(d)) && d.nanos() == n)
                    &&& name == "p95"@ ==> (r matches Ok(Threshold::P95Lt(d)) && d.nanos() == n)
                    &&& name == "p90"@ ==> (r matches Ok(Threshold::P90Lt(d)) && d.nanos() == n)
                    &&& name == "p50"@ ==> (r matches Ok(Threshold::P50Lt(d)) && d.nanos() == n)
                    &&& name == "mean"@ ==> (r matches Ok(Threshold::MeanLt(d)) && d.nanos()
                        == n)
                }
                &&& parsed is Err ==> (name == "p99"@ || name == "p95"@ || name == "p90"@
                    || name == "p50"@ || name == "mean"@) ==> r is Err
            },
        forall|p: int|
            #![trigger first_comparison_at(trim(s@), p)]
            first_comparison_at(trim(s@), p) ==> rate_threshold_read(s@, p, r),
{
    let ghost parsed_view = match &parsed {
        Ok(p) => Ok(*p),
        Err(m) => Err(m@),
    };
    let r = read_threshold(s, parsed);
    proof {
        assert forall|p: int|
            #![trigger first_comparison_at(trim(s@), p)]
            first_comparison_at(trim(s@), p) && trim(s@)[p] == '<' implies {
                let name = trim(trim(s@).subrange(0, p));
                &&& parsed matches Ok(q) ==> {
                    let n = q.0 * NANOS_PER_SEC + q.1;
                    &&& name == "p99"@ ==> (r matches Ok(Threshold::P99Lt(d)) && d.nanos() == n)
                    &&& name == "p95"@ ==> (r matches Ok(Threshold::P95Lt(d)) && d.nanos() == n)
                    &&& name == "p90"@ ==> (r matches Ok(Threshold::P90Lt(d)) && d.nanos() == n)
                    &&& name == "p50"@ ==> (r matches Ok(Threshold::P50Lt(d)) && d.nanos() == n)
                    &&& name == "mean"@ ==> (r matches Ok(Threshold::MeanLt(d)) && d.nanos()
                        == n)
                }
                &&& parsed is Err ==> (name == "p99"@ || name == "p95"@ || name == "p90"@
                    || name == "p50"@ || name == "mean"@) ==> r is Err
            } by {
            law_latency_threshold_names_its_figure(s@, p, parsed_view, r);
        }
        assert forall|p: int|
            #![trigger first_comparison_at(trim(s@), p)]
            first_comparison_at(trim(s@), p) implies rate_threshold_read(s@, p, r) by {
            law_rate_threshold_names_its_figure(s@, p, parsed_view, r);
        }
    }
    r
}

#[verifier::rlimit(50)]
/// Reads a threshold assertion as `threshold_reading` says.
fn read_threshold(s: &str, parsed: Result<(u64, u32), String>) -> (r: Result<
    Threshold,
    BastionError,
>)
    requires
        parsed matches Ok(p) ==> p.1 < NANOS_PER_SEC,
    ensures
        parse_result_is(
            r,
            threshold_reading(
                s@,
                match parsed {
                    Ok(p) => Ok(p),
                    Err(m) => Err(m@),
                },
            ),
        ),
{
    let v = chars_of(s);
    let n = v.len();
    assert(v@.subrange(0, n as int) =~= s@);
    let (a, b) = trim_bounds(&v, 0, n);
    let ghost t = v@.subrange(a as int, b as int);
    let p = find_comparison(&v, a, b);
    if p == b {
        proof {
            if exists|q: int| first_comparison_at(t, q) {
                let q = choose|q: int| first_comparison_at(t, q);
                assert(v@[a + q] == t[q]);
            }
        }
        let mut m = string_from("Unknown threshold format: '");
        let ts = string_of(&v, a, b);
        m.append(ts.as_str());
        m.append("'. expected pattern like 'p99<100ms', 'rps>1000', error-rate<1%', 'mean<50ms'");
        return Err(invalid_config(m));
    }
    proof {
        assert(first_comparison_at(t, p - a));
        let q = choose|q: int| first_comparison_at(t, q);
        assert(q == p - a) by {
            if q < p - a {
                assert(v@[a + q] == t[q]);
            } else if q > p - a {
                assert(t[p - a] == v@[p as int]);
            }
        }
        assert(t.subrange(0, p - a) =~= v@.subrange(a as int, p as int));
        assert(t.subrange(p - a + 1, t.len() as int) =~= v@.subrange(p + 1, b as int));
    }
    let (na, nb) = trim_bounds(&v, a, p);
    let (va, vb) = trim_bounds(&v, p + 1, b);
    let less = v[p] == '<';
    let mut kind: u8 = 7;
    if less && range_is(&v, na, nb, "p99") {
        kind = 0;
    } else if less && range_is(&v, na, nb, "p95") {
        kind = 1;
    } else if less && range_is(&v, na, nb, "p90") {
        kind = 2;
    } else if less && range_is(&v, na, nb, "p50") {
        kind = 3;
    } else if less && range_is(&v, na, nb, "mean") {
        kind = 4;
    } else if less && (range_is(&v, na, nb, "error-rate") || range_is(&v, na, nb, "error_rate")) {
        kind = 5;
    } else if !less && range_is(&v, na, nb, "rps") {
        kind = 6;
    }
    let val = string_of(&v, va, vb);
    if kind <= 4 {
        match parsed {
            Ok(pair) => {
                let d = Duration::new(pair.0, pair.1);
                if kind == 0 {
                    Ok(Threshold::P99Lt(d))
                } else if kind == 1 {
                    Ok(Threshold::P95Lt(d))
                } else if kind == 2 {
                    Ok(Threshold::P90Lt(d))
                } else if kind == 3 {
                    Ok(Threshold::P50Lt(d))
                } else {
                    Ok(Threshold::MeanLt(d))
                }
            },
            Err(e) => {
                let raw = string_of(&v, p + 1, b);
                let mut m = string_from("Invalid duration: '");
                m.append(raw.as_str());
                m.append("': ");
                m.append(e.as_str());
                Err(invalid_config(m))
            },
        }
    } else if kind == 5 {
        let ve = trim_percent_end(&v, va, vb);
        if float_literal_in(&v, va, ve) {
            Ok(Threshold::ErrorRateLt(string_of(&v, va, ve)))
        } else {
            let mut m = string_from("Invalid error rate: '");
            m.append(val.as_str());
            m.append("': expected percentage");
            Err(invalid_config(m))
        }
    } else if kind == 6 {
        if float_literal_in(&v, va, vb) {
            Ok(Threshold::RpsGt(val))
        } else {
            let mut m = string_from("Invalid RPS: '");
            m.append(val.as_str());
            m.append("': expected number");
            Err(invalid_config(m))
        }
    } else {
        let mut m = string_from("Unknown threshold format: '");
        let ts = string_of(&v, a, b);
        m.append(ts.as_str());
        m.append("'. expected pattern like 'p99<100ms', 'rps>1000', error-rate<1%', 'mean<50ms'");
        Err(invalid_config(m))
    }
}

/// The text that the duration parser is handed for the assertion `s`: its
/// value part, or all of it when it has no comparison.
pub fn threshold_value_text(s: &str) -> (r: String)
    ensures
        (exists|p: int| first_comparison_at(trim(s@), p)) ==> r@ == threshold_value(s@),
{
    let v = chars_of(s);
    let n = v.len();
    assert(v@.subrange(0, n as int) =~= s@);
    let (a, b) = trim_bounds(&v, 0, n);
    let ghost t = v@.subrange(a as int, b as int);
    let p = find_comparison(&v, a, b);
    if p == b {
        return string_of(&v, a, b);
    }
    proof {
        assert(first_comparison_at(t, p - a));
        let q = choose|q: int| first_comparison_at(t, q);
        assert(q == p - a) by {
            if q < p - a {
                assert(v@[a + q] == t[q]);
            } else if q > p - a {
                assert(t[p - a] == v@[p as int]);
            }
        }
        assert(t.subrange(p - a + 1, t.len() as int) =~= v@.subrange(p + 1, b as int));
    }
    string_of(&v, p + 1, b)
}

/// The kind of the assertion `s`, as `threshold_kind` says.
pub fn threshold_kind_of(s: &str) -> (k: u8)
    ensures
        k == threshold_kind(s@),
{
    let v = chars_of(s);
    let n = v.len();
    assert(v@.subrange(0, n as int) =~= s@);
    let (a, b) = trim_bounds(&v, 0, n);
    let ghost t = v@.subrange(a as int, b as int);
    let p = find_comparison(&v, a, b);
    if p == b {
        proof {
            if exists|q: int| first_comparison_at(t, q) {
                let q = choose|q: int| first_comparison_at(t, q);
                assert(v@[a + q] == t[q]);
            }
        }
        return 8;
    }
    proof {
        assert(first_comparison_at(t, p - a));
        let q = choose|q: int| first_comparison_at(t, q);
        assert(q == p - a) by {
            if q < p - a {
                assert(v@[a + q] == t[q]);
            } else if q > p - a {
                assert(t[p - a] == v@[p as int]);
            }
        }
        assert(t.subrange(0, p - a) =~= v@.subrange(a as int, p as int));
    }
    let (na, nb) = trim_bounds(&v, a, p);
    let less = v[p] == '<';
    if less && range_is(&v, na, nb, "p99") {
        0
    } else if less && range_is(&v, na, nb, "p95") {
        1
    } else if less && range_is(&v, na, nb, "p90") {
        2
    } else if less && range_is(&v, na, nb, "p50") {
        3
    } else if less && range_is(&v, na, nb, "mean") {
        4
    } else if less && (range_is(&v, na, nb, "error-rate") || range_is(&v, na, nb, "error_rate")) {
        5
    } else if !less && range_is(&v, na, nb, "rps") {
        6
    } else {
        7
    }
}

/// Parses a threshold assertion such as "p99<200ms", "p99 < 200ms",
/// "mean<80ms", "error-rate<1%", "error_rate < 0.5%" or "rps>50". Only a
/// latency threshold's value goes to the duration parser.
pub fn parse_threshold(s: &str) -> (r: Result<Threshold, BastionError>)
    ensures
        (exists|p: int| first_comparison_at(trim(s@), p)) ==> parse_result_is(
            r,
            threshold_reading(s@, duration_reading(threshold_value(s@))),
        ),
        !(exists|p: int| first_comparison_at(trim(s@), p)) ==> (r matches Err(e)
            && is_invalid_config(e, unknown_threshold(trim(s@)))),
        forall|p: int|
            #![trigger first_comparison_at(trim(s@), p)]
            first_comparison_at(trim(s@), p) && trim(s@)[p] == '<' ==> {
                let name = trim(trim(s@).subrange(0, p));
                &&& duration_reading(threshold_value(s@)) matches Ok(q) ==> {
                    let n = q.0 * NANOS_PER_SEC + q.1;
                    &&& name == "p99"@ ==> (r matches Ok(Threshold::P99Lt(d)) && d.nanos() == n)
                    &&& name == "p95"@ ==> (r matches Ok(Threshold::P95Lt(d)) && d.nanos() == n)
                    &&& name == "p90"@ ==> (r matches Ok(Threshold::P90Lt(d)) && d.nanos() == n)
                    &&& name == "p50"@ ==> (r matches Ok(Threshold::P50Lt(d)) && d.nanos() == n)
                    &&& name == "mean"@ ==> (r matches Ok(Threshold::MeanLt(d)) && d.nanos()
                        == n)
                }
                &&& duration_reading(threshold_value(s@)) is Err ==> (name == "p99"@ || name
                    == "p95"@ || name == "p90"@ || name == "p50"@ || name == "mean"@) ==> r is Err
            },
        forall|p: int|
            #![trigger first_comparison_at(trim(s@), p)]
            first_comparison_at(trim(s@), p) ==> rate_threshold_read(s@, p, r),
{
    let r = parse_threshold_text(s);
    proof {
        assert forall|p: int|
            #![trigger first_comparison_at(trim(s@), p)]
            first_comparison_at(trim(s@), p) && trim(s@)[p] == '<' implies {
                let name = trim(trim(s@).subrange(0, p));
                &&& duration_reading(threshold_value(s@)) matches Ok(q) ==> {
                    let n = q.0 * NANOS_PER_SEC + q.1;
                    &&& name == "p99"@ ==> (r matches Ok(Threshold::P99Lt(d)) && d.nanos() == n)
                    &&& name == "p95"@ ==> (r matches Ok(Threshold::P95Lt(d)) && d.nanos() == n)
                    &&& name == "p90"@ ==> (r matches Ok(Threshold::P90Lt(d)) && d.nanos() == n)
                    &&& name == "p50"@ ==> (r matches Ok(Threshold::P50Lt(d)) && d.nanos() == n)
                    &&& name == "mean"@ ==> (r matches Ok(Threshold::MeanLt(d)) && d.nanos()
                        == n)
                }
                &&& duration_reading(threshold_value(s@)) is Err ==> (name == "p99"@ || name
                    == "p95"@ || name == "p90"@ || name == "p50"@ || name == "mean"@) ==> r is Err
            } by {
            law_latency_threshold_names_its_figure(s@, p, duration_reading(threshold_value(s@)), r);
        }
        assert forall|p: int|
            #![trigger first_comparison_at(trim(s@), p)]
            first_comparison_at(trim(s@), p) implies rate_threshold_read(s@, p, r) by {
            law_rate_threshold_names_its_figure(s@, p, duration_reading(threshold_value(s@)), r);
        }
    }
    r
}

/// Parses a threshold assertion as `threshold_reading` says.
fn parse_threshold_text(s: &str) -> (r: Result<Threshold, BastionError>)
    ensures
        (exists|p: int| first_comparison_at(trim(s@), p)) ==> parse_result_is(
            r,
            threshold_reading(s@, duration_reading(threshold_value(s@))),
        ),
        !(exists|p: int| first_comparison_at(trim(s@), p)) ==> (r matches Err(e)
            && is_invalid_config(e, unknown_threshold(trim(s@)))),
{
    let kind = threshold_kind_of(s);
    if kind <= 4 {
        let val = threshold_value_text(s);
        let parsed = read_duration(val.as_str());
        threshold_from(s, parsed)
    } else {
        let r = threshold_from(s, Err(String::new()));
        proof {
            let other = duration_reading(threshold_value(s@));
            assert(threshold_reading(s@, Err(Seq::<char>::empty())) == threshold_reading(s@, other));
        }
        r
    }
}

// ------------------------------------------------------------------------
// Verdicts.
// ------------------------------------------------------------------------

/// How a verdict shows a span of `n` nanoseconds: whole
/// milliseconds ("12ms"), or whole microseconds ("850μs") below one
/// millisecond.
pub open spec fn duration_text(n: nat) -> Seq<char> {
    if n / 1_000_000 == 0 {
        decimal(n / 1000) + "μs"@
    } else {
        decimal(n / 1_000_000) + "ms"@
    }
}

/// Writes a span as a verdict shows it.
pub fn fmt_duration(d: Duration) -> (s: String)
    ensures
        s@ == duration_text(d.nanos()),
{
    let ms = d.as_millis();
    let mut s = String::new();
    if ms == 0 {
        push_decimal(&mut s, d.as_micros());
        s.append("μs");
    } else {
        push_decimal(&mut s, ms);
        s.append("ms");
    }
    s
}

/// The latency limit of a latency threshold.
pub open spec fn latency_limit(th: Threshold) -> Option<Duration> {
    match th {
        Threshold::P99Lt(d) => Some(d),
        Threshold::P95Lt(d) => Some(d),
        Threshold::P90Lt(d) => Some(d),
        Threshold::P50Lt(d) => Some(d),
        Threshold::MeanLt(d) => Some(d),
        _ => None,
    }
}

/// The figure of `l` that a latency threshold limits.
pub open spec fn latency_figure(th: Threshold, l: LatencySnapshot) -> Option<Duration> {
    match th {
        Threshold::P99Lt(_) => Some(l.p99),
        Threshold::P95Lt(_) => Some(l.p95),
        Threshold::P90Lt(_) => Some(l.p90),
        Threshold::P50Lt(_) => Some(l.p50),
        Threshold::MeanLt(_) => Some(l.mean),
        _ => None,
    }
}

/// The name a report gives the threshold's metric.
pub open spec fn label_text(th: Threshold) -> Seq<char> {
    match th {
        Threshold::P99Lt(_) => "p99 latency"@,
        Threshold::P95Lt(_) => "p95 latency"@,
        Threshold::P90Lt(_) => "p90 latency"@,
        Threshold::P50Lt(_) => "p50 latency"@,
        Threshold::MeanLt(_) => "mean latency"@,
        Threshold::ErrorRateLt(_) => "error rate"@,
        Threshold::RpsGt(_) => "throughput"@,
    }
}

/// Each latency threshold limits the figure its name names: the 99th,
/// 95th, 90th percentile, the median or the mean latency of the snapshot.
pub proof fn law_latency_threshold_limits_its_figure(th: Threshold, l: LatencySnapshot)
    ensures
        th is P99Lt ==> latency_figure(th, l) == Some(l.p99),
        th is P95Lt ==> latency_figure(th, l) == Some(l.p95),
        th is P90Lt ==> latency_figure(th, l) == Some(l.p90),
        th is P50Lt ==> latency_figure(th, l) == Some(l.p50),
        th is MeanLt ==> latency_figure(th, l) == Some(l.mean),
        (th is ErrorRateLt || th is RpsGt) ==> latency_figure(th, l) is None,
{
}

/// A verdict `r` judging the figure `actual` against `limit`: it passes
/// exactly when the figure is strictly below the limit, and shows the
/// figure as its actual value and the limit after "< " as its expected one.
pub open spec fn verdict_on(r: Option<ThresholdResult>, actual: Duration, limit: Duration) -> bool {
    r matches Some(res) && {
        &&& res.passed == (actual.nanos() < limit.nanos())
        &&& res.actual@ == duration_text(actual.nanos())
        &&& res.expected@ == "< "@ + duration_text(limit.nanos())
    }
}

impl Threshold {
    /// The verdict on a latency threshold against the run's latencies: it
    /// passes when the figure it limits is strictly below the limit. The
    /// error-rate and throughput thresholds compare floating-point figures,
    /// which the application judges; for them the result is `None`.
    pub fn evaluate(self, latency: &LatencySnapshot) -> (r: Option<ThresholdResult>)
        ensures
            match (latency_limit(self), latency_figure(self, *latency)) {
                (Some(limit), Some(actual)) => r matches Some(res) && {
                    &&& res.threshold == self
                    &&& res.passed == (actual.nanos() < limit.nanos())
                    &&& res.actual@ == duration_text(actual.nanos())
                    &&& res.expected@ == "< "@ + duration_text(limit.nanos())
                },
                _ => r is None,
            },
            self matches Threshold::P99Lt(limit) ==> verdict_on(r, latency.p99, limit),
            self matches Threshold::P95Lt(limit) ==> verdict_on(r, latency.p95, limit),
            self matches Threshold::P90Lt(limit) ==> verdict_on(r, latency.p90, limit),
            self matches Threshold::P50Lt(limit) ==> verdict_on(r, latency.p50, limit),
            self matches Threshold::MeanLt(limit) ==> verdict_on(r, latency.mean, limit),
            (self is ErrorRateLt || self is RpsGt) ==> r is None,
    {
        let (limit, actual) = match &self {
            Threshold::P99Lt(d) => (*d, latency.p99),
            Threshold::P95Lt(d) => (*d, latency.p95),
            Threshold::P90Lt(d) => (*d, latency.p90),
            Threshold::P50Lt(d) => (*d, latency.p50),
            Threshold::MeanLt(d) => (*d, latency.mean),
            _ => return None,
        };
        let mut expected = string_from("< ");
        let limit_text = fmt_duration(limit);
        expected.append(limit_text.as_str());
        Some(
            ThresholdResult {
                threshold: self,
                passed: actual.lt(&limit),
                actual: fmt_duration(actual),
                expected,
            },
        )
    }

    /// The name a report gives the threshold's metric.
    pub fn label(&self) -> (s: &'static str)
        ensures
            s@ == label_text(*self),
    {
        match self {
            Threshold::P99Lt(_) => "p99 latency",
            Threshold::P95Lt(_) => "p95 latency",
            Threshold::P90Lt(_) => "p90 latency",
            Threshold::P50Lt(_) => "p50 latency",
            Threshold::MeanLt(_) => "mean latency",
            Threshold::ErrorRateLt(_) => "error rate",
            Threshold::RpsGt(_) => "throughput",
        }
    }
}

} // verus!
