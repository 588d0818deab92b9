//! Tests of the two-tier hot cache.

use rusty_ssr::hot::{HotCache, HOT_MAP_CAPACITY, ULTRA_HOT_SIZE};
use std::sync::Arc;

#[test]
fn hot_test_basic_operations() {
    let mut cache = HotCache::new();
    let html: Arc<String> = Arc::new("test".to_string());

    cache.insert(123, Arc::clone(&html));

    assert!(cache.get(123).is_some());
    assert!(cache.get(456).is_none());
}

#[test]
fn test_ultra_hot_eviction() {
    let mut cache = HotCache::new();

    // Insert more than 8 entries
    for i in 0..10u64 {
        let html: Arc<String> = Arc::new(format!("html{}", i));
        cache.insert(i, html);
    }

    // First 2 should be in hot_map, not ultra_hot
    // But still accessible via get()
    assert!(cache.get(0).is_some(), "Entry 0 should be in hot_map");
    assert!(cache.get(1).is_some(), "Entry 1 should be in hot_map");
    assert!(cache.get(9).is_some(), "Entry 9 should be in ultra_hot");
}

#[test]
fn test_promotion() {
    let mut cache = HotCache::new();

    // Fill ultra_hot
    for i in 0..8u64 {
        cache.insert(i, Arc::new(format!("html{}", i)));
    }

    // Add more to push to hot_map
    for i in 8..16u64 {
        cache.insert(i, Arc::new(format!("html{}", i)));
    }

    // Entry 0 should be in hot_map now
    // Accessing it should promote it back to ultra_hot
    let _ = cache.get(0);

    // Verify it's accessible
    assert!(cache.peek(0).is_some());
}

#[test]
fn test_capacity() {
    let mut cache = HotCache::new();

    // Insert 200 entries (more than 128 capacity)
    for i in 0..200u64 {
        cache.insert(i, Arc::new(format!("html{}", i)));
    }

    // Should have at most 128 + 8 = 136 entries
    assert!(cache.len() <= ULTRA_HOT_SIZE + HOT_MAP_CAPACITY);
}

#[test]
fn test_hashmap_lookup_speed() {
    let mut cache = HotCache::new();

    // Fill with 100 entries
    for i in 0..100u64 {
        cache.insert(i, Arc::new(format!("html{}", i)));
    }

    // Access entry that's definitely in hot_map
    // This should be O(1), not O(n)
    assert!(cache.peek(50).is_some());
}

#[test]
fn test_hot_ttl_expiry_at_explicit_clock() {
    // One second TTL; timestamps are nanoseconds.
    let mut cache = HotCache::with_ttl(1);
    cache.insert_at(7, Arc::new("x".to_string()), 1_000);
    assert!(cache.peek_at(7, 1_000).is_some());
    assert!(cache.peek_at(7, 500_000_000).is_some());
    // More than one second later: expired.
    assert!(cache.peek_at(7, 2_000_000_000).is_none());
    assert!(cache.get_at(7, 2_000_000_000).is_none());
    // The entry sat in the ultra-hot ring, where expiry is checked but not
    // collected; only expired hot-map entries are deleted opportunistically.
    assert_eq!(cache.len(), 1);
}

#[test]
fn test_hot_clear() {
    let mut cache = HotCache::new();
    for i in 0..20u64 {
        cache.insert(i, Arc::new(format!("html{}", i)));
    }
    assert!(!cache.is_empty());
    cache.clear();
    assert!(cache.is_empty());
    assert_eq!(cache.len(), 0);
    assert!(cache.get(3).is_none());
}
