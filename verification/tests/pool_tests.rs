//! Tests of the worker pool's decision rules: enqueue retries and
//! deadlines, reply translation, and core pinning.

use rusty_ssr::pool::{
    enqueue_decision, pin_core_index, reply_to_result, AdaptivePoolConfig, EnqueueDecision,
    PoolError, SendOutcome,
};

#[test]
fn test_enqueue_accepted_proceeds() {
    assert!(matches!(
        enqueue_decision(SendOutcome::Accepted, 0, Some(5_000_000)),
        EnqueueDecision::Proceed
    ));
}

#[test]
fn test_enqueue_full_retries_before_deadline() {
    // 5ms deadline, 1ms elapsed: retry.
    assert!(matches!(
        enqueue_decision(SendOutcome::Full, 1_000_000, Some(5_000_000)),
        EnqueueDecision::RetryLater
    ));
    // No deadline at all: retry forever.
    assert!(matches!(
        enqueue_decision(SendOutcome::Full, u64::MAX, None),
        EnqueueDecision::RetryLater
    ));
}

#[test]
fn test_enqueue_full_times_out_at_deadline() {
    // 5ms deadline, 5ms elapsed: a timeout, as a pool with no workers and a
    // zero-depth queue produces.
    assert!(matches!(
        enqueue_decision(SendOutcome::Full, 5_000_000, Some(5_000_000)),
        EnqueueDecision::Fail(PoolError::Timeout)
    ));
}

#[test]
fn test_enqueue_closed_pool_is_disconnected() {
    assert!(matches!(
        enqueue_decision(SendOutcome::Closed, 0, Some(5_000_000)),
        EnqueueDecision::Fail(PoolError::Disconnected)
    ));
}

#[test]
fn test_reply_translation() {
    assert_eq!(reply_to_result(Some(Ok("html".to_string()))).unwrap(), "html");
    match reply_to_result(Some(Err("js threw".to_string()))) {
        Err(PoolError::Render(m)) => assert_eq!(m, "js threw"),
        other => panic!("expected Render, got {:?}", other),
    }
    assert!(matches!(reply_to_result(None), Err(PoolError::WorkerCrashed)));
}

#[test]
fn test_pin_core_round_robin() {
    assert_eq!(pin_core_index(0, 4), 0);
    assert_eq!(pin_core_index(5, 4), 1);
    assert_eq!(pin_core_index(7, 4), 3);
}

#[test]
fn test_adaptive_pool_default() {
    let c = AdaptivePoolConfig::default();
    assert!(c.num_threads >= 1);
}
