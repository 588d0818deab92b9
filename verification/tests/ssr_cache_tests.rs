//! Tests of the multi-tier SSR cache: hits, metrics, clear, and eviction
//! accounting.

use rusty_ssr::ssr_cache::SsrCache;
use std::sync::Arc;

#[test]
fn test_basic_caching() {
    let mut cache = SsrCache::new(100);

    cache.insert("/test", Arc::new("html".to_string()));
    assert!(cache.try_get("/test").is_some());
    assert!(cache.try_get("/other").is_none());
}

#[test]
fn test_metrics() {
    let mut cache = SsrCache::new(100);

    cache.insert("/test", Arc::new("html".to_string()));
    let _ = cache.try_get("/test");
    let _ = cache.try_get("/missing");

    let metrics = cache.metrics();
    assert_eq!(metrics.insertions, 1);
    assert_eq!(metrics.lookups, 2);
    assert_eq!(metrics.misses, 1);
}

#[test]
fn test_clear_removes_hot_and_resets_metrics() {
    let mut cache = SsrCache::with_ttl(16, 10);

    cache.insert("/hot", Arc::new("html".to_string()));
    assert!(cache.try_get("/hot").is_some(), "hot cache should have entry");

    cache.clear();

    // After clearing, both caches should miss and metrics reset
    assert!(cache.try_get("/hot").is_none(), "hot cache should be cleared");
    let metrics = cache.metrics();
    assert_eq!(metrics.insertions, 0);
    assert_eq!(metrics.lookups, 1);
    assert_eq!(metrics.misses, 1);
}

#[test]
fn test_round_trip_hot_hit() {
    // Insert a URL, look it up again: identical bytes, one hot hit, and no
    // further insertion.
    let mut cache = SsrCache::new(100);
    cache.insert("/home", Arc::new("<h1>/home</h1>".to_string()));
    let before = cache.metrics();

    let first = cache.try_get("/home").expect("fresh insert should hit");
    let second = cache.try_get("/home").expect("second lookup should hit");
    assert_eq!(*first, *second);
    assert_eq!(*first, "<h1>/home</h1>");

    let after = cache.metrics();
    assert_eq!(after.hot_hits, before.hot_hits + 2);
    assert_eq!(after.insertions, before.insertions);
    assert_eq!(after.insertions, 1);
}

#[test]
fn test_eviction_scenario_capacity_eight() {
    // Cold capacity 8; insert 9 distinct URLs: the cold tier stays within
    // capacity and at least one eviction is counted.
    let mut cache = SsrCache::new(8);
    for i in 0..9 {
        cache.insert(&format!("/page{}", i), Arc::new(format!("html{}", i)));
    }
    let metrics = cache.metrics();
    assert!(metrics.cold_size <= 8, "cold size {} exceeds capacity", metrics.cold_size);
    assert!(metrics.evictions >= 1);
    assert_eq!(metrics.insertions, 9);
    assert_eq!(metrics.cold_capacity, 8);
}

#[test]
fn test_cold_hit_promotes() {
    // Insert far more URLs than the hot tier holds (8 + 128): the earliest
    // ones are displaced from the hot tier but stay in the cold tier, so
    // looking one up again is a cold hit that gets promoted.
    let mut cache = SsrCache::new(500);
    for i in 0..300 {
        cache.insert(&format!("/page{}", i), Arc::new(format!("html{}", i)));
    }
    let html = cache.try_get("/page0").expect("still in the cold tier");
    assert_eq!(*html, "html0");
    let m = cache.metrics();
    assert_eq!(m.cold_hits, 1);
    assert_eq!(m.promotions, 1);
    assert_eq!(m.hot_hits, 0);
}

#[test]
fn test_hit_rate_bp() {
    let mut cache = SsrCache::new(10);
    cache.insert("/a", Arc::new("a".to_string()));
    let _ = cache.try_get("/a");
    let _ = cache.try_get("/b");
    let m = cache.metrics();
    // One hit out of two lookups: 50.00% = 5000 hundredths of a percent.
    assert_eq!(m.hit_rate_bp(), 5000);
}

#[test]
fn test_invalidate_removes_from_cold() {
    let mut cache = SsrCache::new(100);
    cache.insert("/x", Arc::new("x".to_string()));
    assert!(cache.invalidate("/x"));
    assert!(!cache.invalidate("/x"));
    assert_eq!(cache.size(), 0);
}
