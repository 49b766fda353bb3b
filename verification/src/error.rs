//! The error type of the library.

use vstd::prelude::*;

verus! {

/// What went wrong, with a message for the user.
#[derive(Debug, Clone)]
pub enum BastionError {
    /// The configuration, a command-line argument or an assertion is invalid.
    InvalidConfig(String),
    /// The rate limiter could not be set up.
    RateLimiter(String),
    /// A metric could not be computed.
    Metrics(String),
}

/// An `InvalidConfig` error whose message is `m`.
pub open spec fn is_invalid_config(e: BastionError, m: Seq<char>) -> bool {
    e matches BastionError::InvalidConfig(s) && s@ == m
}

/// `Ok(())` where `err` is `None`, else an `InvalidConfig` error with
/// message `err`.
pub open spec fn outcome_is(r: Result<(), BastionError>, err: Option<Seq<char>>) -> bool {
    match err {
        None => r is Ok,
        Some(m) => r matches Err(e) && is_invalid_config(e, m),
    }
}

/// An `InvalidConfig` error with message `m`.
pub fn invalid_config(m: String) -> (e: BastionError)
    ensures
        is_invalid_config(e, m@),
{
    BastionError::InvalidConfig(m)
}

} // verus!
