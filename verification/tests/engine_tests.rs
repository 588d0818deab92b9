//! Tests of the render pipeline's decision logic: payload validation, the
//! cache consultation, error mapping, and folding pool answers back.

use rusty_ssr::engine::{map_pool_error, render_finish, render_precheck, RenderStep};
use rusty_ssr::pool::PoolError;
use rusty_ssr::ssr_cache::SsrCache;
use rusty_ssr::SsrError;

#[test]
fn test_invalid_json_is_rejected_and_nothing_inserted() {
    let mut cache = SsrCache::new(100);
    match render_precheck(&mut cache, "/x", "not json") {
        RenderStep::Rejected(SsrError::BadData(_)) => {},
        other => panic!("expected BadData, got {:?}", step_name(&other)),
    }
    let m = cache.metrics();
    assert_eq!(m.insertions, 0);
    assert_eq!(m.lookups, 0);
    assert_eq!(cache.size(), 0);
}

#[test]
fn test_miss_then_render_then_hit() {
    let mut cache = SsrCache::new(100);

    // First call: valid data, empty cache: a miss that needs a render.
    match render_precheck(&mut cache, "/home", "{}") {
        RenderStep::NeedsRender => {},
        other => panic!("expected NeedsRender, got {}", step_name(&other)),
    }
    let m = cache.metrics();
    assert_eq!((m.lookups, m.misses, m.insertions), (1, 1, 0));

    // The pool answered: the page is inserted and returned.
    let html = render_finish(&mut cache, "/home", Ok("<h1>/home</h1>".to_string())).unwrap();
    assert_eq!(*html, "<h1>/home</h1>");
    let m = cache.metrics();
    assert_eq!((m.lookups, m.misses, m.insertions), (1, 1, 1));

    // Second call: a hot cache hit with identical bytes, and no new render.
    match render_precheck(&mut cache, "/home", "{}") {
        RenderStep::Cached(h) => assert_eq!(*h, "<h1>/home</h1>"),
        other => panic!("expected Cached, got {}", step_name(&other)),
    }
    let m = cache.metrics();
    assert_eq!((m.lookups, m.hot_hits, m.insertions), (2, 1, 1));
}

#[test]
fn test_with_data_payload_is_accepted() {
    let mut cache = SsrCache::new(100);
    match render_precheck(&mut cache, "/profile", "{\"u\":\"Alice\",\"n\":42}") {
        RenderStep::NeedsRender => {},
        other => panic!("expected NeedsRender, got {}", step_name(&other)),
    }
    let html = render_finish(
        &mut cache,
        "/profile",
        Ok("<h1>/profile</h1><pre>{\"u\":\"Alice\",\"n\":42}</pre>".to_string()),
    )
    .unwrap();
    assert!(html.contains("Alice"));
    assert!(html.contains("42"));
}

#[test]
fn test_pool_errors_map_to_engine_errors() {
    assert!(matches!(map_pool_error(PoolError::Timeout), SsrError::Timeout));
    assert!(matches!(map_pool_error(PoolError::Disconnected), SsrError::PoolFull));
    match map_pool_error(PoolError::WorkerCrashed) {
        SsrError::JsExecution(m) => assert_eq!(m, "V8 worker crashed"),
        other => panic!("expected JsExecution, got {}", other.kind_name()),
    }
    match map_pool_error(PoolError::Render("boom".to_string())) {
        SsrError::JsExecution(m) => assert_eq!(m, "boom"),
        other => panic!("expected JsExecution, got {}", other.kind_name()),
    }
}

#[test]
fn test_failed_render_leaves_cache_untouched() {
    let mut cache = SsrCache::new(100);
    let r = render_finish(&mut cache, "/x", Err(PoolError::Timeout));
    assert!(matches!(r, Err(SsrError::Timeout)));
    assert_eq!(cache.size(), 0);
    assert_eq!(cache.metrics().insertions, 0);
}

#[test]
fn test_error_kind_names() {
    assert_eq!(SsrError::Timeout.kind_name(), "Timeout");
    assert_eq!(SsrError::PoolFull.kind_name(), "PoolFull");
    assert_eq!(SsrError::BadData("x".to_string()).kind_name(), "BadData");
    assert_eq!(SsrError::Config("x".to_string()).kind_name(), "Config");
    assert_eq!(SsrError::BundleLoad("x".to_string()).kind_name(), "BundleLoad");
    assert_eq!(SsrError::V8Init("x".to_string()).kind_name(), "V8Init");
    assert_eq!(SsrError::Cache("x".to_string()).kind_name(), "Cache");
    assert_eq!(SsrError::Io("x".to_string()).kind_name(), "Io");
    assert_eq!(SsrError::JsExecution("x".to_string()).kind_name(), "JsExecution");
}

fn step_name(step: &RenderStep) -> &'static str {
    match step {
        RenderStep::Cached(_) => "Cached",
        RenderStep::NeedsRender => "NeedsRender",
        RenderStep::Rejected(_) => "Rejected",
    }
}
