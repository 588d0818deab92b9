//! Tests of the compact cache stack: the eight-slot hot ring and the
//! versioned multi-tier cache.

use rusty_ssr::compact::{HotCache, SSRCache};
use std::sync::Arc;

#[test]
fn test_hot_cache_basic() {
    let mut cache = HotCache::new();

    let html: Arc<String> = Arc::new("test".to_string());
    cache.insert(123, Arc::clone(&html));

    assert!(cache.get(123).is_some());
    assert!(cache.get(456).is_none());
}

#[test]
fn test_hot_cache_eviction() {
    let mut cache = HotCache::new();

    // Insert 10 entries (more than 8)
    for i in 0..10u64 {
        let html: Arc<String> = Arc::new(format!("html{}", i));
        cache.insert(i, html);
    }

    // The first 2 should have been displaced
    assert!(cache.get(0).is_none());
    assert!(cache.get(1).is_none());

    // The last 8 should remain
    assert!(cache.get(2).is_some());
    assert!(cache.get(9).is_some());
}

#[test]
fn test_compact_cache_hits_and_misses() {
    let mut cache = SSRCache::new(100);

    cache.insert("/test", Arc::new("test html".to_string()));
    assert_eq!(*cache.try_get("/test").unwrap(), "test html");
    assert!(cache.try_get("/other").is_none());

    let m = cache.metrics();
    assert_eq!(m.lookups, 2);
    assert_eq!(m.hot_hits, 1);
    assert_eq!(m.misses, 1);
    assert_eq!(m.cold_insertions, 1);
    assert_eq!(m.hot_insertions, 1);
    assert_eq!(m.cold_cache_capacity, 100);
}

#[test]
fn test_versioned_keys_miss_across_versions() {
    let mut cache = SSRCache::new(100);
    cache.insert_versioned("/page", Arc::new("v1 html".to_string()), 1);

    assert_eq!(*cache.try_get_versioned("/page", 1).unwrap(), "v1 html");
    assert!(cache.try_get_versioned("/page", 2).is_none());
    assert!(cache.try_get("/page").is_none());
}

#[test]
fn test_render_bookkeeping() {
    let mut cache = SSRCache::new(10);
    cache.note_render(2_500_000);
    cache.note_render(1_000_000);
    cache.note_render_error();
    let m = cache.metrics();
    assert_eq!(m.renders, 2);
    assert_eq!(m.render_errors, 1);
    assert_eq!(m.last_render_ns, 1_000_000);
}

#[test]
fn test_compact_clear_empties_cold() {
    let mut cache = SSRCache::new(10);
    cache.insert("/a", Arc::new("a".to_string()));
    assert_eq!(cache.cold_cache_size(), 1);
    cache.clear();
    assert_eq!(cache.cold_cache_size(), 0);
}
