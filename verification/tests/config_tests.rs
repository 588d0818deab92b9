//! Tests of the engine and pool configurations: defaults, the builder, and
//! build-time validation.

use rusty_ssr::config::SsrConfig;
use rusty_ssr::pool::V8PoolConfig;
use rusty_ssr::SsrError;

#[test]
fn config_test_default_config() {
    let config = SsrConfig::default();
    assert_eq!(config.pool_size, num_cpus::get());
    assert_eq!(config.cache_size, 300);
    assert!(!config.pin_threads);
}

#[test]
fn test_builder() {
    let config = SsrConfig::builder()
        .bundle_path("custom.js")
        .pool_size(4)
        .cache_size(100)
        .pin_threads(true)
        .build();

    assert_eq!(config.bundle_path, "custom.js");
    assert_eq!(config.pool_size, 4);
    assert_eq!(config.cache_size, 100);
    assert!(config.pin_threads);
}

#[test]
fn integration_tests_test_default_config() {
    let config = V8PoolConfig::default();

    assert!(config.num_threads > 0, "Should have at least 1 thread");
    assert_eq!(config.queue_capacity, 512, "Default queue capacity should be 512");
    assert!(!config.pin_threads, "Thread pinning should be disabled by default");
    assert_eq!(
        config.request_timeout,
        Some(std::time::Duration::from_secs(30)),
        "Default enqueue timeout should be 30s"
    );
    assert_eq!(
        config.render_function, "renderPage",
        "Default render function should be 'renderPage'"
    );
}

#[test]
fn test_custom_config() {
    let config = V8PoolConfig {
        num_threads: 4,
        queue_capacity: 1024,
        pin_threads: true,
        request_timeout: Some(std::time::Duration::from_secs(1)),
        render_function: "customRender".to_string(),
    };

    assert_eq!(config.num_threads, 4);
    assert_eq!(config.queue_capacity, 1024);
    assert!(config.pin_threads);
    assert_eq!(config.request_timeout, Some(std::time::Duration::from_secs(1)));
    assert_eq!(config.render_function, "customRender");
}

#[test]
fn test_config_clone() {
    let config = V8PoolConfig {
        num_threads: 8,
        queue_capacity: 256,
        pin_threads: false,
        request_timeout: None,
        render_function: "render".to_string(),
    };

    let cloned = config.clone();

    assert_eq!(config.num_threads, cloned.num_threads);
    assert_eq!(config.queue_capacity, cloned.queue_capacity);
    assert_eq!(config.pin_threads, cloned.pin_threads);
    assert_eq!(config.request_timeout, cloned.request_timeout);
    assert_eq!(config.render_function, cloned.render_function);
}

fn assert_config_error(config: &SsrConfig) {
    match config.validate() {
        Err(SsrError::Config(_)) => {},
        other => panic!("expected a Config error, got {:?}", other),
    }
}

#[test]
fn test_validation_rejects_zero_pool_size() {
    let config = SsrConfig { pool_size: 0, ..SsrConfig::default() };
    assert_config_error(&config);
}

#[test]
fn test_validation_rejects_zero_cache_size() {
    let config = SsrConfig { cache_size: 0, ..SsrConfig::default() };
    assert_config_error(&config);
}

#[test]
fn test_validation_rejects_zero_queue_capacity() {
    let config = SsrConfig { queue_capacity: 0, ..SsrConfig::default() };
    assert_config_error(&config);
}

#[test]
fn test_validation_rejects_empty_render_function() {
    let config = SsrConfig { render_function: String::new(), ..SsrConfig::default() };
    assert_config_error(&config);
}

#[test]
fn test_validation_rejects_render_function_with_injection() {
    let config = SsrConfig { render_function: "foo; evil()".to_string(), ..SsrConfig::default() };
    assert_config_error(&config);
}

#[test]
fn test_validation_accepts_default_and_dotted_names() {
    assert!(SsrConfig::default().validate().is_ok());
    let config = SsrConfig { render_function: "app.render_page2".to_string(), ..SsrConfig::default() };
    assert!(config.validate().is_ok());
}

#[test]
fn test_builder_ttl_seconds() {
    let config = SsrConfig::builder().cache_ttl_secs(60).build();
    assert_eq!(config.cache_ttl, Some(std::time::Duration::from_secs(60)));
    let config = SsrConfig::builder().cache_ttl_secs(0).build();
    assert_eq!(config.cache_ttl, None);
}

#[test]
fn test_validation_rejects_non_ascii_render_function() {
    let config = SsrConfig { render_function: "render\u{e9}".to_string(), ..SsrConfig::default() };
    assert_config_error(&config);
}
