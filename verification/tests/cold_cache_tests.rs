//! Tests of the shared cold cache: lookups, capacity, batch eviction, TTL,
//! and prefix deletion.

use rusty_ssr::cold::ColdCache;
use std::sync::Arc;

#[test]
fn cold_test_basic_operations() {
    let mut cache = ColdCache::new(100);
    let html: Arc<String> = Arc::new("test".to_string());

    cache.insert(123, "/k123", Arc::clone(&html));

    assert!(cache.get(123).is_some());
    assert!(cache.get(456).is_none());
}

#[test]
fn test_eviction() {
    let mut cache = ColdCache::new(5);

    for i in 0..10u64 {
        let html: Arc<String> = Arc::new(format!("html{}", i));
        cache.insert(i, &format!("/k{}", i), html);
    }

    assert_eq!(cache.len(), 5);
}

#[test]
fn test_cold_cache_basic() {
    let mut cache = ColdCache::new(100);

    let html: Arc<String> = Arc::new("test".to_string());
    cache.insert(123, "/k123", Arc::clone(&html));

    assert!(cache.get(123).is_some());
    assert!(cache.get(456).is_none());
}

#[test]
fn test_cold_cache_eviction() {
    let mut cache = ColdCache::new(5);

    // Insert 10 entries (more than max_entries)
    for i in 0..10u64 {
        let html: Arc<String> = Arc::new(format!("html{}", i));
        cache.insert(i, &format!("/k{}", i), html);
    }

    // Only 5 entries should remain
    assert_eq!(cache.len(), 5);
}

#[test]
fn test_batch_eviction_removes_least_recently_stamped() {
    // Capacity 500 gives a batch of 2% = 10.
    let mut cache = ColdCache::new(500);
    for i in 0..500u64 {
        cache.insert(i, &format!("/k{}", i), Arc::new(format!("html{}", i)));
    }
    assert_eq!(cache.len(), 500);

    // Touch everything but the first ten, so those ten are the oldest.
    for i in 10..500u64 {
        assert!(cache.get(i).is_some());
    }

    // The next insert finds the cache full and evicts one batch of ten.
    let evicted = cache.insert(500, "/k500", Arc::new("html500".to_string()));
    assert_eq!(evicted, 10);
    assert_eq!(cache.len(), 491);
    for i in 0..10u64 {
        assert!(cache.get(i).is_none(), "entry {} should have been evicted", i);
    }
    assert!(cache.get(450).is_some());
    assert!(cache.get(500).is_some());
}

#[test]
fn test_cold_ttl_expiry_at_explicit_clock() {
    let mut cache = ColdCache::with_ttl(10, 1);
    cache.insert_at(1, "/a", Arc::new("x".to_string()), 1_000);
    assert!(cache.get_at(1, 1_000).is_some());
    // More than one second later the entry is expired and removed.
    assert!(cache.get_at(1, 3_000_000_000).is_none());
    assert_eq!(cache.len(), 0);
}

#[test]
fn test_remove_and_remove_by_prefix() {
    let mut cache = ColdCache::new(100);
    cache.insert(1, "/a/1", Arc::new("a1".to_string()));
    cache.insert(2, "/a/2", Arc::new("a2".to_string()));
    cache.insert(3, "/b/1", Arc::new("b1".to_string()));

    assert!(cache.remove(1));
    assert!(!cache.remove(1));
    assert_eq!(cache.len(), 2);

    let removed = cache.remove_by_prefix("/a/");
    assert_eq!(removed, 1);
    assert_eq!(cache.len(), 1);
    assert!(cache.get(3).is_some());

    cache.clear();
    assert!(cache.is_empty());
    assert_eq!(cache.capacity(), 100);
}
