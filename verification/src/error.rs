//! Error types of the rendering engine.
//!
//! The taxonomy is flat: every failure a caller can see is one of these
//! kinds. Worker-local JavaScript errors are captured and returned as the
//! render result, so they surface as `JsExecution`, never as a dead worker.

use vstd::prelude::*;

verus! {

/// Errors that can occur during SSR operations.
#[derive(Debug)]
pub enum SsrError {
    /// The JavaScript bundle could not be read or was initialized twice.
    BundleLoad(String),
    /// Runtime construction failed in a worker.
    V8Init(String),
    /// JavaScript threw, produced a non-string result, or the worker crashed.
    JsExecution(String),
    /// The enqueue deadline elapsed before the pool accepted the request.
    Timeout,
    /// A cache operation failed.
    Cache(String),
    /// The pool is shutting down or its channel is closed.
    PoolFull,
    /// The configuration was rejected at build time.
    Config(String),
    /// The data payload is not valid JSON.
    BadData(String),
    /// A filesystem error during bundle load, carried as its message.
    Io(String),
}

/// Result type alias for SSR operations.
pub type SsrResult<T> = Result<T, SsrError>;

impl SsrError {
    /// A short label naming the error kind, for logs and tests.
    pub fn kind_name(&self) -> (r: &'static str)
        ensures
            r@ == match self {
                SsrError::BundleLoad(_) => "BundleLoad"@,
                SsrError::V8Init(_) => "V8Init"@,
                SsrError::JsExecution(_) => "JsExecution"@,
                SsrError::Timeout => "Timeout"@,
                SsrError::Cache(_) => "Cache"@,
                SsrError::PoolFull => "PoolFull"@,
                SsrError::Config(_) => "Config"@,
                SsrError::BadData(_) => "BadData"@,
                SsrError::Io(_) => "Io"@,
            },
    {
        match self {
            SsrError::BundleLoad(_) => "BundleLoad",
            SsrError::V8Init(_) => "V8Init",
            SsrError::JsExecution(_) => "JsExecution",
            SsrError::Timeout => "Timeout",
            SsrError::Cache(_) => "Cache",
            SsrError::PoolFull => "PoolFull",
            SsrError::Config(_) => "Config",
            SsrError::BadData(_) => "BadData",
            SsrError::Io(_) => "Io",
        }
    }
}

} // verus!
