//! Configuration of the SSR engine, with build-time validation.
//!
//! A configuration is assembled through `SsrConfigBuilder` and checked by
//! `SsrConfig::validate` before an engine is built: the pool size, cache
//! size and queue capacity must be positive, and the render-function name
//! must be a non-empty dotted identifier. Rejecting a bad configuration at
//! build time surfaces mistakes immediately instead of at first use.

use vstd::prelude::*;
use core::time::Duration;
use crate::error::{SsrError, SsrResult};
use crate::sys::cpu_count;
use vstd::string::{StringSliceAdditionalSpecFns, StrSliceExecFns};

verus! {

/// The whole seconds a `Duration` denotes: a function of the duration
/// alone, through which `Duration::from_secs` is specified.
pub uninterp spec fn duration_secs_of(d: Duration) -> u64;

/// Relies on core::time::Duration::from_secs: constructs the duration of
/// exactly that many whole seconds.
pub assume_specification [ Duration::from_secs ](secs: u64) -> (d: Duration)
    ensures
        duration_secs_of(d) == secs,
;

/// A character allowed in a render-function name: an ASCII letter or digit,
/// an underscore, or a dot (for dotted paths).
pub open spec fn is_render_fn_char(c: char) -> bool {
    ('A' <= c && c <= 'Z') || ('a' <= c && c <= 'z') || ('0' <= c && c <= '9') || c == '_' || c
        == '.'
}

/// A valid render-function name: non-empty, every character allowed.
pub open spec fn valid_render_function(s: Seq<char>) -> bool {
    s.len() > 0 && forall|i: int| 0 <= i < s.len() ==> is_render_fn_char(#[trigger] s[i])
}

/// Whether a configuration passes validation: positive pool size, cache
/// size and queue capacity, and a valid render-function name.
pub open spec fn spec_config_valid(c: SsrConfig) -> bool {
    c.pool_size > 0 && c.queue_capacity > 0 && c.cache_size > 0 && valid_render_function(
        c.render_function@,
    )
}

/// Whether a render-function name is a non-empty string of letters, digits,
/// underscores and dots.
pub fn render_function_ok(s: &str) -> (r: bool)
    ensures
        r == valid_render_function(s@),
{
    let n = s.unicode_len();
    if n == 0 {
        return false;
    }
    let mut i: usize = 0;
    while i < n
        invariant
            n == s@.len(),
            i <= n,
            forall|j: int| 0 <= j < i ==> is_render_fn_char(#[trigger] s@[j]),
        decreases n - i,
    {
        let c = s.get_char(i);
        let ok = ('A' <= c && c <= 'Z') || ('a' <= c && c <= 'z') || ('0' <= c && c <= '9') || c
            == '_' || c == '.';
        if !ok {
            return false;
        }
        i = i + 1;
    }
    true
}

/// Configuration for the SSR engine.
#[derive(Debug, Clone)]
pub struct SsrConfig {
    /// Path of the JavaScript SSR bundle on disk.
    pub bundle_path: String,
    /// Number of worker threads (default: the number of CPUs).
    pub pool_size: usize,
    /// Depth of the bounded render queue.
    pub queue_capacity: usize,
    /// Pin workers to CPU cores, round-robin.
    pub pin_threads: bool,
    /// Maximum entries in the cold tier of the SSR cache.
    pub cache_size: usize,
    /// Cache TTL (`None` = no expiration).
    pub cache_ttl: Option<Duration>,
    /// Enqueue timeout (`None` = wait without a deadline).
    pub request_timeout: Option<Duration>,
    /// Name of the global render function in the JS bundle.
    pub render_function: String,
}

impl Default for SsrConfig {
    /// The default configuration: one worker per CPU, a queue of 512, a
    /// cache of 300 entries expiring after five minutes, a thirty-second
    /// enqueue deadline, and `renderPage` as the render function.
    fn default() -> (r: Self)
        ensures
            r.bundle_path@ == "ssr-bundle.js"@,
            r.pool_size >= 1,
            r.queue_capacity == 512,
            !r.pin_threads,
            r.cache_size == 300,
            r.cache_ttl matches Some(t) && duration_secs_of(t) == 300,
            r.request_timeout matches Some(t) && duration_secs_of(t) == 30,
            r.render_function@ == "renderPage"@,
            spec_config_valid(r),
    {
        let r = SsrConfig {
            bundle_path: "ssr-bundle.js".to_owned(),
            pool_size: cpu_count(),
            queue_capacity: 512,
            pin_threads: false,
            cache_size: 300,
            cache_ttl: Some(Duration::from_secs(300)),
            request_timeout: Some(Duration::from_secs(30)),
            render_function: "renderPage".to_owned(),
        };
        proof {
            reveal_strlit("renderPage");
            assert forall|i: int| 0 <= i < r.render_function@.len() implies is_render_fn_char(
                #[trigger] r.render_function@[i],
            ) by {
            }
        }
        r
    }
}

impl SsrConfig {
    /// Create a new configuration builder.
    pub fn builder() -> (r: SsrConfigBuilder)
        ensures
            r.parts() == SsrConfigBuilder::empty_parts(),
    {
        SsrConfigBuilder {
            bundle_path: None,
            pool_size: None,
            queue_capacity: None,
            pin_threads: None,
            cache_size: None,
            cache_ttl: None,
            request_timeout: None,
            render_function: None,
        }
    }

    /// Check the configuration: `Ok` exactly when the pool size, queue
    /// capacity and cache size are positive and the render-function name is
    /// a non-empty string of letters, digits, underscores and dots; any
    /// violation is a `Config` error.
    pub fn validate(&self) -> (r: SsrResult<()>)
        ensures
            r is Ok <==> spec_config_valid(*self),
            r matches Err(e) ==> e is Config,
    {
        if self.pool_size == 0 {
            return Err(SsrError::Config("pool_size must be greater than zero".to_owned()));
        }
        if self.queue_capacity == 0 {
            return Err(SsrError::Config("queue_capacity must be greater than zero".to_owned()));
        }
        if self.cache_size == 0 {
            return Err(SsrError::Config("cache_size must be greater than zero".to_owned()));
        }
        if !render_function_ok(self.render_function.as_str()) {
            return Err(
                SsrError::Config(
                    "render_function must be a non-empty name of letters, digits, underscores and dots".to_owned(),
                ),
            );
        }
        Ok(())
    }
}

/// Builder for `SsrConfig`: each setter fills one option; `build` falls
/// back to the default for anything left unset.
#[derive(Debug)]
pub struct SsrConfigBuilder {
    bundle_path: Option<String>,
    pool_size: Option<usize>,
    queue_capacity: Option<usize>,
    pin_threads: Option<bool>,
    cache_size: Option<usize>,
    cache_ttl: Option<Option<Duration>>,
    request_timeout: Option<Option<Duration>>,
    render_function: Option<String>,
}

impl SsrConfigBuilder {
    /// The builder's state: what has been set so far, in field order.
    pub closed spec fn parts(self) -> (
        Option<Seq<char>>,
        Option<usize>,
        Option<usize>,
        Option<bool>,
        Option<usize>,
        Option<Option<Duration>>,
        Option<Option<Duration>>,
        Option<Seq<char>>,
    ) {
        (
            match self.bundle_path {
                Some(p) => Some(p@),
                None => None,
            },
            self.pool_size,
            self.queue_capacity,
            self.pin_threads,
            self.cache_size,
            self.cache_ttl,
            self.request_timeout,
            match self.render_function {
                Some(f) => Some(f@),
                None => None,
            },
        )
    }

    /// The state of a fresh builder: nothing set.
    pub open spec fn empty_parts() -> (
        Option<Seq<char>>,
        Option<usize>,
        Option<usize>,
        Option<bool>,
        Option<usize>,
        Option<Option<Duration>>,
        Option<Option<Duration>>,
        Option<Seq<char>>,
    ) {
        (None, None, None, None, None, None, None, None)
    }

    /// Set the path of the JavaScript SSR bundle.
    pub fn bundle_path(self, path: &str) -> (r: Self)
        ensures
            r.parts() == (
                Some(path@),
                self.parts().1,
                self.parts().2,
                self.parts().3,
                self.parts().4,
                self.parts().5,
                self.parts().6,
                self.parts().7,
            ),
    {
        Self { bundle_path: Some(path.to_owned()), ..self }
    }

    /// Set the number of worker threads.
    pub fn pool_size(self, size: usize) -> (r: Self)
        ensures
            r.parts() == (
                self.parts().0,
                Some(size),
                self.parts().2,
                self.parts().3,
                self.parts().4,
                self.parts().5,
                self.parts().6,
                self.parts().7,
            ),
    {
        Self { pool_size: Some(size), ..self }
    }

    /// Set the render queue depth.
    pub fn queue_capacity(self, capacity: usize) -> (r: Self)
        ensures
            r.parts() == (
                self.parts().0,
                self.parts().1,
                Some(capacity),
                self.parts().3,
                self.parts().4,
                self.parts().5,
                self.parts().6,
                self.parts().7,
            ),
    {
        Self { queue_capacity: Some(capacity), ..self }
    }

    /// Enable or disable pinning each worker to a CPU core.
    pub fn pin_threads(self, pin: bool) -> (r: Self)
        ensures
            r.parts() == (
                self.parts().0,
                self.parts().1,
                self.parts().2,
                Some(pin),
                self.parts().4,
                self.parts().5,
                self.parts().6,
                self.parts().7,
            ),
    {
        Self { pin_threads: Some(pin), ..self }
    }

    /// Set the maximum number of cached renders in the cold tier.
    pub fn cache_size(self, size: usize) -> (r: Self)
        ensures
            r.parts() == (
                self.parts().0,
                self.parts().1,
                self.parts().2,
                self.parts().3,
                Some(size),
                self.parts().5,
                self.parts().6,
                self.parts().7,
            ),
    {
        Self { cache_size: Some(size), ..self }
    }

    /// Set the cache TTL; `None` means no expiration.
    pub fn cache_ttl(self, ttl: Option<Duration>) -> (r: Self)
        ensures
            r.parts() == (
                self.parts().0,
                self.parts().1,
                self.parts().2,
                self.parts().3,
                self.parts().4,
                Some(ttl),
                self.parts().6,
                self.parts().7,
            ),
    {
        Self { cache_ttl: Some(ttl), ..self }
    }

    /// Set the cache TTL in whole seconds; 0 means no expiration.
    pub fn cache_ttl_secs(self, secs: u64) -> (r: Self)
        ensures
            r.parts().0 == self.parts().0,
            r.parts().1 == self.parts().1,
            r.parts().2 == self.parts().2,
            r.parts().3 == self.parts().3,
            r.parts().4 == self.parts().4,
            r.parts().6 == self.parts().6,
            r.parts().7 == self.parts().7,
            secs == 0 ==> r.parts().5 == Some(Option::<Duration>::None),
            secs > 0 ==> (r.parts().5 matches Some(o) && (o matches Some(d) && duration_secs_of(d)
                == secs)),
    {
        let ttl = if secs > 0 {
            Some(Duration::from_secs(secs))
        } else {
            None
        };
        Self { cache_ttl: Some(ttl), ..self }
    }

    /// Set the enqueue timeout; `None` means no deadline.
    pub fn request_timeout(self, timeout: Option<Duration>) -> (r: Self)
        ensures
            r.parts() == (
                self.parts().0,
                self.parts().1,
                self.parts().2,
                self.parts().3,
                self.parts().4,
                self.parts().5,
                Some(timeout),
                self.parts().7,
            ),
    {
        Self { request_timeout: Some(timeout), ..self }
    }

    /// Set the name of the global render function the bundle installs.
    pub fn render_function(self, name: &str) -> (r: Self)
        ensures
            r.parts() == (
                self.parts().0,
                self.parts().1,
                self.parts().2,
                self.parts().3,
                self.parts().4,
                self.parts().5,
                self.parts().6,
                Some(name@),
            ),
    {
        Self { render_function: Some(name.to_owned()), ..self }
    }

    /// Build the configuration, falling back to the default for every field
    /// left unset.
    pub fn build(self) -> (r: SsrConfig)
        ensures
            match self.parts().0 {
                Some(p) => r.bundle_path@ == p,
                None => r.bundle_path@ == "ssr-bundle.js"@,
            },
            match self.parts().1 {
                Some(v) => r.pool_size == v,
                None => r.pool_size >= 1,
            },
            match self.parts().2 {
                Some(v) => r.queue_capacity == v,
                None => r.queue_capacity == 512,
            },
            match self.parts().3 {
                Some(v) => r.pin_threads == v,
                None => !r.pin_threads,
            },
            match self.parts().4 {
                Some(v) => r.cache_size == v,
                None => r.cache_size == 300,
            },
            match self.parts().5 {
                Some(v) => r.cache_ttl == v,
                None => r.cache_ttl matches Some(t) && duration_secs_of(t) == 300,
            },
            match self.parts().6 {
                Some(v) => r.request_timeout == v,
                None => r.request_timeout matches Some(t) && duration_secs_of(t) == 30,
            },
            match self.parts().7 {
                Some(f) => r.render_function@ == f,
                None => r.render_function@ == "renderPage"@,
            },
    {
        let d = SsrConfig::default();
        SsrConfig {
            bundle_path: match self.bundle_path {
                Some(p) => p,
                None => d.bundle_path,
            },
            pool_size: match self.pool_size {
                Some(v) => v,
                None => d.pool_size,
            },
            queue_capacity: match self.queue_capacity {
                Some(v) => v,
                None => d.queue_capacity,
            },
            pin_threads: match self.pin_threads {
                Some(v) => v,
                None => d.pin_threads,
            },
            cache_size: match self.cache_size {
                Some(v) => v,
                None => d.cache_size,
            },
            cache_ttl: match self.cache_ttl {
                Some(v) => v,
                None => d.cache_ttl,
            },
            request_timeout: match self.request_timeout {
                Some(v) => v,
                None => d.request_timeout,
            },
            render_function: match self.render_function {
                Some(f) => f,
                None => d.render_function,
            },
        }
    }
}

} // verus!
