//! The run's decisions outside the scheduler and the aggregator.

use vstd::prelude::*;
use crate::config::RunMode;

verus! {

/// The number of completed requests at which the progress view stops: the
/// request count of a counted run; a timed run has no such number, and
/// `u64::MAX` stands for it.
pub fn progress_target(mode: &RunMode) -> (n: u64)
    ensures
        n == match *mode {
            RunMode::RequestCount(k) => k,
            RunMode::Duration(_) => u64::MAX,
        },
{
    match mode {
        RunMode::RequestCount(n) => *n,
        RunMode::Duration(_) => u64::MAX,
    }
}

} // verus!
