//! The connection pool's settings.

use vstd::prelude::*;
use crate::config::Config;
use crate::time::Duration;

verus! {

/// How the HTTP client pools its connections.
#[derive(Debug, Clone, Copy)]
pub struct PoolConfig {
    pub max_idle_per_host: usize,
    pub idle_timeout: Duration,
    pub connection_timeout: Duration,
    pub http2: bool,
    pub http2_max_concurrent: Option<u32>,
}

impl PoolConfig {
    /// The pool for a run: one idle connection per worker, kept 90 seconds,
    /// the request timeout as the connection timeout, and HTTP/2 as
    /// configured.
    pub fn from_config(config: &Config) -> (p: PoolConfig)
        ensures
            p.max_idle_per_host == config.concurrency,
            p.idle_timeout.nanos() == 90 * 1_000_000_000,
            p.connection_timeout == config.timeout,
            p.http2 == config.http2,
            p.http2_max_concurrent is None,
    {
        PoolConfig {
            max_idle_per_host: config.concurrency,
            idle_timeout: Duration::from_secs(90),
            connection_timeout: config.timeout,
            http2: config.http2,
            http2_max_concurrent: None,
        }
    }
}

} // verus!
