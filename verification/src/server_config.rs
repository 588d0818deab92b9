//! The embedding server's configuration values. Reading overrides from the
//! environment is I/O and happens outside; this is the validated shape and
//! the derived bind address.

use vstd::prelude::*;
use crate::text::{spec_dec_str, u64_to_dec};

verus! {

/// Configuration of the embedding HTTP server.
pub struct ServerConfig {
    /// Interface to bind.
    pub host: String,
    /// Port to bind.
    pub port: u16,
    /// Worker threads for the render pool.
    pub v8_pool_size: usize,
    /// Base URL of the upstream product API.
    pub product_api_base: String,
    /// Capacity of the lazy product cache.
    pub product_lazy_cache_capacity: usize,
    /// Depth of the render queue.
    pub v8_queue_capacity: usize,
    /// Pin render workers to CPU cores.
    pub v8_pin_threads: bool,
    /// TCP listen backlog.
    pub tcp_backlog: u32,
    /// Blocking-thread budget of the async runtime.
    pub tokio_max_blocking_threads: usize,
}

impl ServerConfig {
    /// The address to bind: the host, a colon, and the port in decimal.
    pub fn bind_address(&self) -> (r: String)
        ensures
            r@ == self.host@ + ":"@ + spec_dec_str(self.port as u64),
    {
        let mut s = self.host.clone();
        s.append(":");
        let port = u64_to_dec(self.port as u64);
        s.append(port.as_str());
        s
    }
}

} // verus!
