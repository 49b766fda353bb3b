//! The settings of a `reqwest` client for a run: its timeout, keep-alive,
//! idle pool, redirects and default headers.

use vstd::prelude::*;
use crate::config::Config;
use crate::error::{BastionError, is_invalid_config};
use crate::http::request::{checked_headers, header_error, header_texts};
use crate::text::string_from;
use crate::time::Duration;

verus! {

/// What a client is built with.
#[derive(Debug)]
pub struct ClientSettings {
    /// The timeout of each request.
    pub timeout: Duration,
    /// TCP keep-alive, where connections are kept.
    pub tcp_keepalive: Option<Duration>,
    /// How many idle connections the pool keeps per host.
    pub pool_max_idle_per_host: usize,
    /// Whether redirects are followed (else none is).
    pub follow_redirects: bool,
    /// The default headers, in the order they are inserted.
    pub default_headers: Vec<(String, String)>,
}

/// The client settings for `config`: its timeout; with keep-alive, TCP
/// keep-alive of 60 seconds and ten idle connections per host, without it
/// neither; its redirect choice; and the user agent followed by the
/// configured headers, each checked by the `http` crate (an `InvalidConfig`
/// error for the first one refused).
pub fn client_settings(config: &Config) -> (r: Result<ClientSettings, BastionError>)
    ensures
        match header_error(config.headers.pairs()) {
            Some(m) => r matches Err(e) && is_invalid_config(e, m),
            None => r matches Ok(s) && {
                &&& s.timeout == config.timeout
                &&& if config.keep_alive {
                    s.tcp_keepalive matches Some(k) && k.nanos() == 60 * 1_000_000_000
                        && s.pool_max_idle_per_host == 10
                } else {
                    s.tcp_keepalive is None && s.pool_max_idle_per_host == 0
                }
                &&& s.follow_redirects == config.follow_redirects
                &&& header_texts(s.default_headers@) == seq![("user-agent"@, "bastion/0.1.0"@)]
                    + config.headers.pairs()
            },
        },
{
    let mut fixed: Vec<(String, String)> = Vec::new();
    fixed.push((string_from("user-agent"), string_from("bastion/0.1.0")));
    assert(header_texts(fixed@) =~= seq![("user-agent"@, "bastion/0.1.0"@)]);
    let default_headers = checked_headers(fixed, &config.headers)?;
    let (tcp_keepalive, pool_max_idle_per_host) = if config.keep_alive {
        (Some(Duration::from_secs(60)), 10)
    } else {
        (None, 0)
    };
    Ok(
        ClientSettings {
            timeout: config.timeout,
            tcp_keepalive,
            pool_max_idle_per_host,
            follow_redirects: config.follow_redirects,
            default_headers,
        },
    )
}

} // verus!
