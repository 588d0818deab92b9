//! Plain data shapes of the product cache: what its metrics snapshot and
//! its lazily fetched records carry. The cache itself talks to an upstream
//! API and lives with the I/O, outside this crate's verified core.

use vstd::prelude::*;

verus! {

/// Lazily fetched product data: the image references of one product.
#[derive(Clone, Debug)]
pub struct LazyProductData {
    /// Product identifier.
    pub id: i32,
    /// Primary image URL, if any.
    pub image_url: Option<String>,
    /// Further image URLs, if any.
    pub images: Option<Vec<String>>,
}

/// A read-only snapshot of the product cache's metrics.
#[derive(Clone, Debug)]
pub struct ProductCacheMetricsSnapshot {
    /// Lazy-cache hits.
    pub lazy_hits: u64,
    /// Lazy-cache misses.
    pub lazy_misses: u64,
    /// Successful lazy fetches.
    pub lazy_fetch_success: u64,
    /// Failed lazy fetches.
    pub lazy_fetch_errors: u64,
    /// Lazy-cache evictions.
    pub lazy_evictions: u64,
    /// Duration of the last lazy fetch, in nanoseconds.
    pub lazy_last_fetch_ns: u64,
    /// Current lazy-cache size.
    pub lazy_cache_len: usize,
    /// Lazy-cache capacity.
    pub lazy_cache_capacity: usize,
    /// Critical-data cache hits.
    pub critical_hits: u64,
    /// Critical-data cache misses.
    pub critical_misses: u64,
    /// Successful critical refreshes.
    pub critical_refresh_success: u64,
    /// Failed critical refreshes.
    pub critical_refresh_errors: u64,
    /// Duration of the last critical refresh, in nanoseconds.
    pub critical_last_refresh_ns: u64,
    /// Number of cached critical entries.
    pub critical_cached_entries: usize,
    /// Age of the cached critical data in milliseconds, if any is cached.
    pub critical_cache_age_ms: Option<u128>,
}

} // verus!
