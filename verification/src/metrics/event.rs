//! The outcome of one request, as the workers report it.

use vstd::prelude::*;
use crate::http::timing::HttpProtocol;
use crate::time::{Duration, Instant};

verus! {

/// One completed (or failed) request.
#[derive(Debug, Clone, Copy)]
pub struct RequestEvent {
    pub completed_at: Instant,
    /// From the scheduler's intended send time to completion.
    pub total_latency: Duration,
    pub ttfb: Option<Duration>,
    /// The response status; `None` when no response came.
    pub status: Option<u16>,
    pub bytes: u64,
    pub new_connection: bool,
    pub protocol: HttpProtocol,
    /// Sent during warmup; not counted in the results.
    pub is_warmup: bool,
}

/// A response with a status below 400.
pub open spec fn success_status(status: Option<u16>) -> bool {
    status matches Some(s) && s < 400
}

/// A response with a status of 500 or more.
pub open spec fn server_error_status(status: Option<u16>) -> bool {
    status matches Some(s) && s >= 500
}

impl RequestEvent {
    /// Whether a response came with a status below 400.
    pub fn is_success(&self) -> (b: bool)
        ensures
            b == success_status(self.status),
    {
        match self.status {
            Some(s) => s < 400,
            None => false,
        }
    }

    /// Whether a response came with a status of 500 or more.
    pub fn is_server_error(&self) -> (b: bool)
        ensures
            b == server_error_status(self.status),
    {
        match self.status {
            Some(s) => s >= 500,
            None => false,
        }
    }
}

} // verus!
