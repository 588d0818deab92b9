//! Tests of the write-once bundle store.

use rusty_ssr::bundle::{
    get_bundle, init_bundle_from_string, init_bundle_raw, is_initialized, BundleStore,
};
use rusty_ssr::SsrError;

#[test]
fn test_bundle_initializes_once() {
    let mut store = BundleStore::new();
    assert!(!is_initialized(&store));

    init_bundle_from_string(&mut store, "globalThis.renderPage = () => 'x';".to_string())
        .expect("first init succeeds");
    assert!(is_initialized(&store));

    // A second initialization fails and changes nothing.
    let before = get_bundle(&store).to_string();
    match init_bundle_from_string(&mut store, "other".to_string()) {
        Err(SsrError::BundleLoad(_)) => {},
        other => panic!("expected BundleLoad, got {:?}", other),
    }
    assert_eq!(get_bundle(&store), before);
}

#[test]
fn test_bundle_polyfills_are_prepended() {
    let mut store = BundleStore::new();
    init_bundle_from_string(&mut store, "globalThis.renderPage = () => 'x';".to_string()).unwrap();
    let stored = get_bundle(&store);
    assert!(stored.contains("globalThis.window = globalThis;"));
    assert!(stored.ends_with("globalThis.renderPage = () => 'x';"));
}

#[test]
fn test_bundle_raw_stores_verbatim() {
    let mut store = BundleStore::new();
    init_bundle_raw(&mut store, "only this".to_string()).unwrap();
    assert_eq!(get_bundle(&store), "only this");
    assert!(init_bundle_raw(&mut store, "again".to_string()).is_err());
}
