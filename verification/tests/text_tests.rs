//! Tests of the text helpers: decimal and hex notation, the render script
//! builder, content types, the bind address, and the metrics exposition.

use rusty_ssr::compact::{versioned_key, SSRCacheMetricsSnapshot};
use rusty_ssr::content_type::guess_content_type;
use rusty_ssr::metrics_text::{format_prometheus_metrics, nanos_seconds_text};
use rusty_ssr::product_data::ProductCacheMetricsSnapshot;
use rusty_ssr::render_script::{build_render_script, escape_js_string};
use rusty_ssr::server_config::ServerConfig;
use rusty_ssr::text::{u64_to_dec, u64_to_hex};

#[test]
fn test_decimal_notation() {
    assert_eq!(u64_to_dec(0), "0");
    assert_eq!(u64_to_dec(7), "7");
    assert_eq!(u64_to_dec(1234567890), "1234567890");
    assert_eq!(u64_to_dec(u64::MAX), "18446744073709551615");
}

#[test]
fn test_hex_notation() {
    assert_eq!(u64_to_hex(0), "0");
    assert_eq!(u64_to_hex(255), "ff");
    assert_eq!(u64_to_hex(0x1a2b3c), "1a2b3c");
}

#[test]
fn test_versioned_key_layout() {
    assert_eq!(versioned_key("/p", 26), "/p@v1a");
}

#[test]
fn test_escape_js_string() {
    assert_eq!(escape_js_string("/plain"), "/plain");
    assert_eq!(escape_js_string("a\"b\\c"), "a\\\"b\\\\c");
}

#[test]
fn test_render_script_shape() {
    let script = build_render_script("/page?q=\"x\"", "{\"n\":1}", "renderPage");
    assert!(script.contains("await globalThis.renderPage(\"/page?q=\\\"x\\\"\", {\"n\":1});"));
    assert!(script.contains("try {"));
    assert!(script.contains("catch (error)"));
    assert!(script.contains("SSR Error"));
}

#[test]
fn test_guess_content_type() {
    assert_eq!(guess_content_type("/a/app.js"), "application/javascript; charset=UTF-8");
    assert_eq!(guess_content_type("/a/site.css"), "text/css; charset=UTF-8");
    assert_eq!(guess_content_type("/a/page.html"), "text/html; charset=UTF-8");
    assert_eq!(guess_content_type("/a/data.json"), "application/json; charset=UTF-8");
    assert_eq!(guess_content_type("/a/logo.svg"), "image/svg+xml");
    assert_eq!(guess_content_type("/a/font.woff2"), "font/woff2");
    assert_eq!(guess_content_type("/a/font.woff"), "font/woff");
    assert_eq!(guess_content_type("/a/blob.bin"), "application/octet-stream");
}

#[test]
fn test_bind_address() {
    let config = ServerConfig {
        host: "0.0.0.0".to_string(),
        port: 3000,
        v8_pool_size: 4,
        product_api_base: "https://example.com/api".to_string(),
        product_lazy_cache_capacity: 256,
        v8_queue_capacity: 512,
        v8_pin_threads: false,
        tcp_backlog: 1024,
        tokio_max_blocking_threads: 8,
    };
    assert_eq!(config.bind_address(), "0.0.0.0:3000");
}

#[test]
fn test_nanos_seconds_text() {
    assert_eq!(nanos_seconds_text(0), "0.000000");
    assert_eq!(nanos_seconds_text(500_000_000), "0.500000");
    assert_eq!(nanos_seconds_text(2_500_000), "0.002500");
    assert_eq!(nanos_seconds_text(1_000_000_000), "1.000000");
}

#[test]
fn test_format_prometheus_metrics_contains_core_lines() {
    let product = ProductCacheMetricsSnapshot {
        lazy_hits: 10,
        lazy_misses: 5,
        lazy_fetch_success: 20,
        lazy_fetch_errors: 1,
        lazy_evictions: 3,
        lazy_last_fetch_ns: 500_000_000,
        lazy_cache_len: 128,
        lazy_cache_capacity: 256,
        critical_hits: 7,
        critical_misses: 2,
        critical_refresh_success: 4,
        critical_refresh_errors: 1,
        critical_last_refresh_ns: 1_000_000_000,
        critical_cached_entries: 42,
        critical_cache_age_ms: Some(1500),
    };

    let ssr = SSRCacheMetricsSnapshot {
        lookups: 100,
        hot_hits: 60,
        cold_hits: 30,
        misses: 10,
        promotions: 25,
        renders: 12,
        render_errors: 1,
        cold_insertions: 12,
        cold_evictions: 5,
        hot_insertions: 12,
        last_render_ns: 2_500_000,
        cold_cache_size: 290,
        cold_cache_capacity: 300,
    };

    let payload = format_prometheus_metrics(&product, &ssr);
    assert!(payload.contains("enddel_product_cache_lazy_hits_total 10"));
    assert!(payload.contains("enddel_product_cache_lazy_cache_capacity 256"));
    assert!(payload.contains("enddel_ssr_cache_renders_total 12"));
    assert!(payload.contains("# TYPE enddel_ssr_cache_last_render_seconds gauge"));
    assert!(payload.contains("enddel_product_cache_critical_cache_age_seconds 1.500"));
    assert!(payload.contains("enddel_ssr_cache_last_render_seconds 0.002500"));
}
