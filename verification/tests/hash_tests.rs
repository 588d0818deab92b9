//! Tests of the URL hasher: deterministic within a run, spread across URLs.

use rusty_ssr::hashing::hash_url;

#[test]
fn test_hash_consistency() {
    let hash1 = hash_url("/test");
    let hash2 = hash_url("/test");
    assert_eq!(hash1, hash2);
}

#[test]
fn test_hash_different() {
    let hash1 = hash_url("/page1");
    let hash2 = hash_url("/page2");
    assert_ne!(hash1, hash2);
}

#[test]
fn test_hash_url_consistency() {
    let url = "/test/page";
    let hash1 = hash_url(url);
    let hash2 = hash_url(url);

    assert_eq!(hash1, hash2, "Same URL should produce same hash");
}

#[test]
fn test_hash_url_different() {
    let hash1 = hash_url("/page1");
    let hash2 = hash_url("/page2");

    assert_ne!(hash1, hash2, "Different URLs should produce different hashes");
}

#[test]
fn test_hash_url_empty() {
    let hash1 = hash_url("");
    let hash2 = hash_url("");

    assert_eq!(hash1, hash2, "Empty strings should hash consistently");
}
