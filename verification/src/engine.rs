//! The engine's decision logic: what `render` does before and after the
//! pool call.
//!
//! A render first validates the data payload as JSON (it is spliced into a
//! script, so it must be well-formed), then consults the cache; only on a
//! miss is a request dispatched to the pool, and the pool's answer is folded
//! back into the cache. The dispatch itself is asynchronous plumbing and
//! runs outside; the two halves around it are verified here, as is the
//! mapping from pool errors to engine errors.

use vstd::prelude::*;
use std::sync::Arc;
use crate::error::SsrError;
use crate::hashing::url_fingerprint;
use crate::pool::PoolError;
use crate::ssr_cache::SsrCache;
use crate::sys::arc_clone;
use vstd::string::StringSliceAdditionalSpecFns;

verus! {

/// Whether a text parses as JSON. `serde_json`'s grammar is the reference:
/// the name stands for its verdict, a function of the text alone.
pub uninterp spec fn json_valid(s: Seq<char>) -> bool;

/// Relies on serde_json::from_str::<Value>: parses the whole text as a JSON
/// document, succeeding exactly on valid JSON.
#[verifier::external_body]
pub fn parse_json_ok(s: &str) -> (r: bool)
    ensures
        r == json_valid(s@),
{
    serde_json::from_str::<serde_json::Value>(s).is_ok()
}

/// What the cache-and-validation half of a render decided.
pub enum RenderStep {
    /// The page was cached: this is the answer.
    Cached(Arc<String>),
    /// Not cached: dispatch a render request to the pool.
    NeedsRender,
    /// The data payload was rejected before anything else happened.
    Rejected(SsrError),
}

/// The first half of a render: reject a payload that is not valid JSON
/// (before touching the cache), otherwise look the URL up, serving a hit
/// from the cache.
pub fn render_precheck(cache: &mut SsrCache, url: &str, data: &str) -> (r: RenderStep)
    requires
        old(cache).wf(),
    ensures
        final(cache).wf(),
        !json_valid(data@) ==> *final(cache) == *old(cache) && (r matches RenderStep::Rejected(e)
            && e is BadData),
        json_valid(data@) ==> match r {
            RenderStep::Cached(h) => SsrCache::try_get_post(
                *old(cache),
                *final(cache),
                url_fingerprint(url.spec_bytes()),
                Some(h@),
            ),
            RenderStep::NeedsRender => SsrCache::try_get_post(
                *old(cache),
                *final(cache),
                url_fingerprint(url.spec_bytes()),
                None,
            ),
            RenderStep::Rejected(_) => false,
        },
{
    if !parse_json_ok(data) {
        return RenderStep::Rejected(SsrError::BadData("data is not valid JSON".to_owned()));
    }
    match cache.try_get(url) {
        Some(html) => RenderStep::Cached(html),
        None => RenderStep::NeedsRender,
    }
}

/// Translate a pool error into the engine's error taxonomy: an enqueue
/// timeout stays a timeout, a closed pool is `PoolFull`, a crashed worker
/// and a worker-reported render error are both JS execution errors.
pub fn map_pool_error(err: PoolError) -> (r: SsrError)
    ensures
        match err {
            PoolError::Timeout => r is Timeout,
            PoolError::Disconnected => r is PoolFull,
            PoolError::WorkerCrashed => r matches SsrError::JsExecution(m) && m@
                == "V8 worker crashed"@,
            PoolError::Render(msg) => r matches SsrError::JsExecution(m) && m@ == msg@,
        },
{
    match err {
        PoolError::Timeout => SsrError::Timeout,
        PoolError::Disconnected => SsrError::PoolFull,
        PoolError::WorkerCrashed => SsrError::JsExecution("V8 worker crashed".to_owned()),
        PoolError::Render(msg) => SsrError::JsExecution(msg),
    }
}

/// The second half of a render: fold the pool's answer back. A rendered
/// page is inserted into the cache (both tiers) and returned; a pool error
/// is mapped into the engine's taxonomy and the cache is left untouched.
pub fn render_finish(cache: &mut SsrCache, url: &str, outcome: Result<String, PoolError>) -> (r:
    Result<Arc<String>, SsrError>)
    requires
        old(cache).wf(),
    ensures
        final(cache).wf(),
        match outcome {
            Ok(html) => {
                &&& r matches Ok(h) && h@ == html@
                &&& SsrCache::insert_post(
                    *old(cache),
                    *final(cache),
                    url_fingerprint(url.spec_bytes()),
                    url@,
                    html@,
                )
            },
            Err(pe) => {
                &&& *final(cache) == *old(cache)
                &&& r matches Err(e) && match pe {
                    PoolError::Timeout => e is Timeout,
                    PoolError::Disconnected => e is PoolFull,
                    PoolError::WorkerCrashed => e matches SsrError::JsExecution(m) && m@
                        == "V8 worker crashed"@,
                    PoolError::Render(msg) => e matches SsrError::JsExecution(m) && m@ == msg@,
                }
            },
        },
{
    match outcome {
        Ok(html) => {
            let blob = Arc::new(html);
            cache.insert(url, arc_clone(&blob));
            Ok(blob)
        },
        Err(pe) => Err(map_pool_error(pe)),
    }
}

} // verus!
