//! The candidate upstream servers: each carries an identity tag and live
//! connection counters; the list is read by the connection-admission logic
//! to bound parallelism.

use vstd::prelude::*;

verus! {

/// Monotonic connection counters of one upstream server.
#[derive(Clone, Copy, PartialEq, Eq, Structural, Debug)]
pub struct ServerStats {
    /// Connections opened through this server.
    pub opened: u64,
    /// Connections closed after being served through this server.
    pub closed: u64,
}

/// One upstream proxy server: an identity tag and its usage counters.
#[derive(Clone, Debug)]
pub struct ProxyServer {
    pub tag: String,
    pub stats: ServerStats,
}

/// The candidate-server list consulted by every in-flight connection.
#[derive(Debug)]
pub struct ServerList {
    pub servers: Vec<ProxyServer>,
}

impl ServerList {
    pub fn new(servers: Vec<ProxyServer>) -> (r: ServerList)
        ensures
            r.servers == servers,
    {
        ServerList { servers }
    }

    /// How many candidate servers there are.
    pub fn len(&self) -> (n: usize)
        ensures
            n == self.servers@.len(),
    {
        self.servers.len()
    }
}

} // verus!
