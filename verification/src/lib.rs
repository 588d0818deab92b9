//! An embedded server-side-rendering engine core: a multi-tier render cache
//! (per-thread hot tiers over a shared cold tier with TTL and approximate-LRU
//! batch eviction), a validated configuration, the error taxonomy, the
//! decision rules of the render pipeline and worker pool, the bundle store,
//! and the metrics exposition, all with verified contracts.

pub mod bundle;
pub mod cold;
pub mod compact;
pub mod config;
pub mod content_type;
pub mod engine;
pub mod error;
pub mod hashing;
pub mod hot;
pub mod metrics_text;
pub mod pool;
pub mod product_data;
pub mod render_script;
pub mod server_config;
pub mod ssr_cache;
pub mod sys;
pub mod text;

pub use config::{SsrConfig, SsrConfigBuilder};
pub use error::{SsrError, SsrResult};
