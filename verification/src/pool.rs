//! The worker pool's configuration, errors, and decision rules.
//!
//! The pool itself is runtime plumbing: worker threads, a bounded channel,
//! one JS runtime per worker. What is verified here is everything the pool
//! decides: how a failed enqueue attempt is resolved against the deadline,
//! how a reply (or its absence) maps to the caller's result, and which core
//! a pinned worker lands on. The loop that performs the sends, yields and
//! awaits runs outside and consults these rules step by step.

use vstd::prelude::*;
use core::time::Duration;
use crate::config::duration_secs_of;
use crate::sys::cpu_count;

verus! {

/// Configuration for the worker pool.
#[derive(Debug, Clone)]
pub struct V8PoolConfig {
    /// Number of worker threads (default: the number of CPUs).
    pub num_threads: usize,
    /// Depth of the bounded render queue.
    pub queue_capacity: usize,
    /// Pin workers to CPU cores, round-robin.
    pub pin_threads: bool,
    /// Deadline for enqueueing a request (`None` = wait without one).
    pub request_timeout: Option<Duration>,
    /// Name of the render function in the JS bundle.
    pub render_function: String,
}

impl Default for V8PoolConfig {
    /// The default pool: one worker per CPU, a queue of 512, no pinning, a
    /// thirty-second enqueue deadline, `renderPage` as the render function.
    fn default() -> (r: Self)
        ensures
            r.num_threads >= 1,
            r.queue_capacity == 512,
            !r.pin_threads,
            r.request_timeout matches Some(t) && duration_secs_of(t) == 30,
            r.render_function@ == "renderPage"@,
    {
        V8PoolConfig {
            num_threads: cpu_count(),
            queue_capacity: 512,
            pin_threads: false,
            request_timeout: Some(Duration::from_secs(30)),
            render_function: "renderPage".to_owned(),
        }
    }
}

/// Configuration of the fixed-size pool variant: just a thread count.
#[derive(Debug, Clone)]
pub struct AdaptivePoolConfig {
    /// Number of worker threads (default: the number of CPUs).
    pub num_threads: usize,
}

impl Default for AdaptivePoolConfig {
    /// One worker per CPU.
    fn default() -> (r: Self)
        ensures
            r.num_threads >= 1,
    {
        AdaptivePoolConfig { num_threads: cpu_count() }
    }
}

/// Errors returned by the worker pool.
#[derive(Debug, Clone)]
pub enum PoolError {
    /// The enqueue deadline elapsed before the queue accepted the request.
    Timeout,
    /// The pool is not accepting new work.
    Disconnected,
    /// A worker crashed or dropped the reply channel without answering.
    WorkerCrashed,
    /// Rendering failed inside the JS runtime.
    Render(String),
}

/// What one attempt to hand a request to the bounded queue came back with.
pub enum SendOutcome {
    /// The queue accepted the request.
    Accepted,
    /// The queue is full; the request is still ours.
    Full,
    /// The receiving side is gone.
    Closed,
}

/// What the enqueue loop does next after one send attempt.
pub enum EnqueueDecision {
    /// The request is in the queue: await the reply.
    Proceed,
    /// The queue is full and the deadline has not passed: yield, then try
    /// again.
    RetryLater,
    /// Give up with this error.
    Fail(PoolError),
}

/// The rule the enqueue loop follows after each send attempt: an accepted
/// request proceeds; a closed queue is `Disconnected`; a full queue retries
/// until the elapsed time reaches the deadline, after which it is
/// `Timeout`. With no deadline a full queue retries forever.
pub open spec fn spec_enqueue_decision(
    outcome: SendOutcome,
    elapsed_ns: u64,
    timeout_ns: Option<u64>,
) -> EnqueueDecision {
    match outcome {
        SendOutcome::Accepted => EnqueueDecision::Proceed,
        SendOutcome::Closed => EnqueueDecision::Fail(PoolError::Disconnected),
        SendOutcome::Full => {
            if timeout_ns matches Some(t) && elapsed_ns >= t {
                EnqueueDecision::Fail(PoolError::Timeout)
            } else {
                EnqueueDecision::RetryLater
            }
        },
    }
}

/// Decide what the enqueue loop does after one send attempt, given how much
/// time has elapsed since the request was first offered.
pub fn enqueue_decision(
    outcome: SendOutcome,
    elapsed_ns: u64,
    timeout_ns: Option<u64>,
) -> (r: EnqueueDecision)
    ensures
        r == spec_enqueue_decision(outcome, elapsed_ns, timeout_ns),
{
    match outcome {
        SendOutcome::Accepted => EnqueueDecision::Proceed,
        SendOutcome::Closed => EnqueueDecision::Fail(PoolError::Disconnected),
        SendOutcome::Full => {
            match timeout_ns {
                Some(t) => {
                    if elapsed_ns >= t {
                        EnqueueDecision::Fail(PoolError::Timeout)
                    } else {
                        EnqueueDecision::RetryLater
                    }
                },
                None => EnqueueDecision::RetryLater,
            }
        },
    }
}

/// Translate what came back on the reply channel: a rendered page is the
/// result; an error string from the worker is a `Render` error; a channel
/// dropped without an answer means the worker crashed.
pub fn reply_to_result(reply: Option<Result<String, String>>) -> (r: Result<String, PoolError>)
    ensures
        match reply {
            Some(Ok(html)) => r == Ok::<String, PoolError>(html),
            Some(Err(msg)) => r == Err::<String, PoolError>(PoolError::Render(msg)),
            None => r == Err::<String, PoolError>(PoolError::WorkerCrashed),
        },
{
    match reply {
        Some(Ok(html)) => Ok(html),
        Some(Err(msg)) => Err(PoolError::Render(msg)),
        None => Err(PoolError::WorkerCrashed),
    }
}

/// The core a pinned worker lands on: round-robin over the available cores.
pub fn pin_core_index(next_core: usize, num_cores: usize) -> (r: usize)
    requires
        num_cores > 0,
    ensures
        r == next_core % num_cores,
        r < num_cores,
{
    next_core % num_cores
}

} // verus!
