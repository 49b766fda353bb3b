//! How the live display writes and colours a latency.

use vstd::prelude::*;
use vstd::string::StringExecFns;
use crate::text::{decimal, push_decimal, string_from};
use crate::time::Duration;

verus! {

/// How the live display writes a span of `n` nanoseconds: from one
/// millisecond up, its whole milliseconds followed by "μs" (the unit the
/// display prints); below that, "0.00s", which is what two decimals of
/// seconds show of less than a millisecond.
pub open spec fn live_duration_text(n: nat) -> Seq<char> {
    let micros = n / 1000;
    if micros >= 1000 {
        decimal(micros / 1000) + "μs"@
    } else {
        "0.00s"@
    }
}

/// Writes a span as the live display shows it.
pub fn fmt_duration(duration: Duration) -> (s: String)
    ensures
        s@ == live_duration_text(duration.nanos()),
{
    let micros = duration.as_micros();
    if micros >= 1_000 {
        let mut s = String::new();
        push_decimal(&mut s, micros / 1_000);
        s.append("μs");
        s
    } else {
        string_from("0.00s")
    }
}

/// How alarming a window's tail latency looks on the live display.
#[derive(Debug, Clone, Copy, PartialEq, Eq, Structural)]
pub enum LatencyLevel {
    /// At most 50 ms: shown in green.
    Low,
    /// Over 50 ms, at most 100 ms: shown in yellow.
    Elevated,
    /// Over 100 ms: shown in red.
    High,
}

/// The level of a 99th percentile, by its whole milliseconds.
pub fn p99_level(p99: Duration) -> (l: LatencyLevel)
    ensures
        l == if p99.nanos() / 1_000_000 > 100 {
            LatencyLevel::High
        } else if p99.nanos() / 1_000_000 > 50 {
            LatencyLevel::Elevated
        } else {
            LatencyLevel::Low
        },
{
    let ms = p99.as_millis();
    if ms > 100 {
        LatencyLevel::High
    } else if ms > 50 {
        LatencyLevel::Elevated
    } else {
        LatencyLevel::Low
    }
}

} // verus!
