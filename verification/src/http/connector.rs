//! The timing of setting up a connection.

use vstd::prelude::*;
use crate::time::{Duration, MAX_NANOS};

verus! {

/// How long each step of setting up a connection took, where it was taken.
#[derive(Debug, Clone, Copy)]
pub struct ConnectionTiming {
    pub dns_lookup: Option<Duration>,
    pub tcp_connect: Option<Duration>,
    pub tls_handshake: Option<Duration>,
    /// Whether an existing connection was reused.
    pub reuses: bool,
}

impl Default for ConnectionTiming {
    fn default() -> (t: ConnectionTiming)
        ensures
            t.dns_lookup is None,
            t.tcp_connect is None,
            t.tls_handshake is None,
            !t.reuses,
    {
        ConnectionTiming { dns_lookup: None, tcp_connect: None, tls_handshake: None, reuses: false }
    }
}

/// The length of an optional step in nanoseconds: zero where it was not taken.
pub open spec fn step_nanos(d: Option<Duration>) -> nat {
    match d {
        Some(x) => x.nanos(),
        None => 0,
    }
}

fn step(d: Option<Duration>) -> (r: Duration)
    ensures
        r.nanos() == step_nanos(d),
{
    match d {
        Some(x) => x,
        None => Duration::zero(),
    }
}

impl ConnectionTiming {
    /// The time spent on DNS lookup, TCP connect and TLS handshake together;
    /// steps not taken count as zero. The caller shows that the sum fits a
    /// duration, as the addition of `std::time::Duration` panics otherwise.
    pub fn total_overhead(&self) -> (d: Duration)
        requires
            step_nanos(self.dns_lookup) + step_nanos(self.tcp_connect) + step_nanos(
                self.tls_handshake,
            ) <= MAX_NANOS,
        ensures
            d.nanos() == step_nanos(self.dns_lookup) + step_nanos(self.tcp_connect) + step_nanos(
                self.tls_handshake,
            ),
    {
        let dns = step(self.dns_lookup);
        let tcp = step(self.tcp_connect);
        let tls = step(self.tls_handshake);
        dns.add(&tcp).add(&tls)
    }
}

} // verus!
