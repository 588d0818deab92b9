//! The Prometheus text exposition of the cache metrics: every counter and
//! gauge as a HELP/TYPE/value block, built and specified character by
//! character. Durations are printed as seconds with six decimals (ages with
//! three), from integer arithmetic.

use vstd::prelude::*;
use crate::compact::SSRCacheMetricsSnapshot;
use crate::product_data::ProductCacheMetricsSnapshot;
use crate::text::{dec_digit, dec_digit_str, spec_dec_str, u64_to_dec, usize_to_dec};

verus! {

/// The JSON metrics endpoint's response: both caches' snapshots.
pub struct CacheMetricsResponse {
    /// The product cache's snapshot.
    pub product_cache: ProductCacheMetricsSnapshot,
    /// The SSR cache's snapshot.
    pub ssr_cache: SSRCacheMetricsSnapshot,
}

/// One exposition block: a HELP line, a TYPE line, and the sample itself.
pub open spec fn spec_block(
    name: Seq<char>,
    help: Seq<char>,
    kind: Seq<char>,
    value: Seq<char>,
) -> Seq<char> {
    "# HELP "@ + name + " "@ + help + "\n# TYPE "@ + name + " "@ + kind + "\n"@ + name + " "@
        + value + "\n"@
}

fn push_block(out: &mut String, name: &str, help: &str, kind: &str, value: &str)
    ensures
        final(out)@ == old(out)@ + spec_block(name@, help@, kind@, value@),
{
    out.append("# HELP ");
    out.append(name);
    out.append(" ");
    out.append(help);
    out.append("\n# TYPE ");
    out.append(name);
    out.append(" ");
    out.append(kind);
    out.append("\n");
    out.append(name);
    out.append(" ");
    out.append(value);
    out.append("\n");
    proof {
        assert(out@ =~= old(out)@ + spec_block(name@, help@, kind@, value@));
    }
}

/// A nanosecond duration as seconds with six decimals: the whole seconds in
/// decimal, a dot, then the microseconds (rounded to nearest) zero-padded
/// to six digits.
pub open spec fn spec_nanos_seconds(ns: u64) -> Seq<char> {
    let tm = ((ns as int) + 500) / 1000;
    spec_dec_str((tm / 1000000) as u64) + "."@ + seq![
        dec_digit(((tm / 100000) % 10) as u64),
        dec_digit(((tm / 10000) % 10) as u64),
        dec_digit(((tm / 1000) % 10) as u64),
        dec_digit(((tm / 100) % 10) as u64),
        dec_digit(((tm / 10) % 10) as u64),
        dec_digit((tm % 10) as u64),
    ]
}

/// Print a nanosecond duration as seconds with six decimals.
pub fn nanos_seconds_text(ns: u64) -> (r: String)
    ensures
        r@ == spec_nanos_seconds(ns),
{
    let tm = ((ns as u128 + 500) / 1000) as u64;
    let mut s = u64_to_dec(tm / 1000000);
    s.append(".");
    s.append(dec_digit_str(tm / 100000 % 10));
    s.append(dec_digit_str(tm / 10000 % 10));
    s.append(dec_digit_str(tm / 1000 % 10));
    s.append(dec_digit_str(tm / 100 % 10));
    s.append(dec_digit_str(tm / 10 % 10));
    s.append(dec_digit_str(tm % 10));
    proof {
        assert(s@ =~= spec_nanos_seconds(ns));
    }
    s
}

/// A millisecond age as seconds with three decimals (saturating at the
/// widest millisecond count a `u64` holds; a missing age reads as zero).
pub open spec fn spec_millis_seconds(ms_opt: Option<u128>) -> Seq<char> {
    let ms: u64 = match ms_opt {
        Some(v) => if v > u64::MAX {
            u64::MAX
        } else {
            v as u64
        },
        None => 0,
    };
    spec_dec_str(ms / 1000) + "."@ + seq![
        dec_digit((ms / 100) % 10),
        dec_digit((ms / 10) % 10),
        dec_digit(ms % 10),
    ]
}

/// Print a millisecond age as seconds with three decimals.
pub fn millis_seconds_text(ms_opt: Option<u128>) -> (r: String)
    ensures
        r@ == spec_millis_seconds(ms_opt),
{
    let ms: u64 = match ms_opt {
        Some(v) => if v > u64::MAX as u128 {
            u64::MAX
        } else {
            v as u64
        },
        None => 0,
    };
    let mut s = u64_to_dec(ms / 1000);
    s.append(".");
    s.append(dec_digit_str(ms / 100 % 10));
    s.append(dec_digit_str(ms / 10 % 10));
    s.append(dec_digit_str(ms % 10));
    proof {
        assert(s@ =~= spec_millis_seconds(ms_opt));
    }
    s
}

/// The product cache's part of the exposition, block by block.
pub open spec fn spec_product_metrics_text(p: ProductCacheMetricsSnapshot) -> Seq<char> {
    spec_block(
        "enddel_product_cache_lazy_hits_total"@,
        "Total cache hits for lazy product data"@,
        "counter"@,
        spec_dec_str(p.lazy_hits),
    ) + spec_block(
        "enddel_product_cache_lazy_misses_total"@,
        "Total cache misses for lazy product data"@,
        "counter"@,
        spec_dec_str(p.lazy_misses),
    ) + spec_block(
        "enddel_product_cache_lazy_fetch_success_total"@,
        "Successful lazy fetches"@,
        "counter"@,
        spec_dec_str(p.lazy_fetch_success),
    ) + spec_block(
        "enddel_product_cache_lazy_fetch_errors_total"@,
        "Failed lazy fetches"@,
        "counter"@,
        spec_dec_str(p.lazy_fetch_errors),
    ) + spec_block(
        "enddel_product_cache_lazy_evictions_total"@,
        "Lazy cache evictions"@,
        "counter"@,
        spec_dec_str(p.lazy_evictions),
    ) + spec_block(
        "enddel_product_cache_lazy_last_fetch_seconds"@,
        "Duration of the last lazy fetch in seconds"@,
        "gauge"@,
        spec_nanos_seconds(p.lazy_last_fetch_ns),
    ) + spec_block(
        "enddel_product_cache_lazy_cache_size"@,
        "Number of entries in lazy cache"@,
        "gauge"@,
        spec_dec_str(p.lazy_cache_len as u64),
    ) + spec_block(
        "enddel_product_cache_lazy_cache_capacity"@,
        "Configured lazy cache capacity"@,
        "gauge"@,
        spec_dec_str(p.lazy_cache_capacity as u64),
    ) + spec_block(
        "enddel_product_cache_critical_hits_total"@,
        "Critical data cache hits"@,
        "counter"@,
        spec_dec_str(p.critical_hits),
    ) + spec_block(
        "enddel_product_cache_critical_misses_total"@,
        "Critical data cache misses"@,
        "counter"@,
        spec_dec_str(p.critical_misses),
    ) + spec_block(
        "enddel_product_cache_critical_refresh_success_total"@,
        "Successful critical refreshes"@,
        "counter"@,
        spec_dec_str(p.critical_refresh_success),
    ) + spec_block(
        "enddel_product_cache_critical_refresh_errors_total"@,
        "Failed critical refreshes"@,
        "counter"@,
        spec_dec_str(p.critical_refresh_errors),
    ) + spec_block(
        "enddel_product_cache_critical_last_refresh_seconds"@,
        "Duration of the last critical refresh in seconds"@,
        "gauge"@,
        spec_nanos_seconds(p.critical_last_refresh_ns),
    ) + spec_block(
        "enddel_product_cache_critical_cached_entries"@,
        "Number of cached critical entries"@,
        "gauge"@,
        spec_dec_str(p.critical_cached_entries as u64),
    ) + spec_block(
        "enddel_product_cache_critical_cache_age_seconds"@,
        "Age of cached critical data in seconds"@,
        "gauge"@,
        spec_millis_seconds(p.critical_cache_age_ms),
    )
}

/// The SSR cache's part of the exposition, block by block.
pub open spec fn spec_ssr_metrics_text(s: SSRCacheMetricsSnapshot) -> Seq<char> {
    spec_block(
        "enddel_ssr_cache_lookups_total"@,
        "Total cache lookups for SSR cache"@,
        "counter"@,
        spec_dec_str(s.lookups),
    ) + spec_block(
        "enddel_ssr_cache_hot_hits_total"@,
        "Hot cache hits for SSR cache"@,
        "counter"@,
        spec_dec_str(s.hot_hits),
    ) + spec_block(
        "enddel_ssr_cache_cold_hits_total"@,
        "Cold cache hits for SSR cache"@,
        "counter"@,
        spec_dec_str(s.cold_hits),
    ) + spec_block(
        "enddel_ssr_cache_misses_total"@,
        "Cache misses for SSR cache"@,
        "counter"@,
        spec_dec_str(s.misses),
    ) + spec_block(
        "enddel_ssr_cache_promotions_total"@,
        "Promotions from cold cache to hot cache"@,
        "counter"@,
        spec_dec_str(s.promotions),
    ) + spec_block(
        "enddel_ssr_cache_renders_total"@,
        "Rendered SSR responses"@,
        "counter"@,
        spec_dec_str(s.renders),
    ) + spec_block(
        "enddel_ssr_cache_render_errors_total"@,
        "SSR rendering errors"@,
        "counter"@,
        spec_dec_str(s.render_errors),
    ) + spec_block(
        "enddel_ssr_cache_cold_insertions_total"@,
        "Cold cache insertions"@,
        "counter"@,
        spec_dec_str(s.cold_insertions),
    ) + spec_block(
        "enddel_ssr_cache_cold_evictions_total"@,
        "Cold cache evictions"@,
        "counter"@,
        spec_dec_str(s.cold_evictions),
    ) + spec_block(
        "enddel_ssr_cache_hot_insertions_total"@,
        "Hot cache insertions"@,
        "counter"@,
        spec_dec_str(s.hot_insertions),
    ) + spec_block(
        "enddel_ssr_cache_last_render_seconds"@,
        "Duration of the last SSR render in seconds"@,
        "gauge"@,
        spec_nanos_seconds(s.last_render_ns),
    ) + spec_block(
        "enddel_ssr_cache_cold_cache_size"@,
        "Number of entries in cold cache"@,
        "gauge"@,
        spec_dec_str(s.cold_cache_size as u64),
    ) + spec_block(
        "enddel_ssr_cache_cold_cache_capacity"@,
        "Configured cold cache capacity"@,
        "gauge"@,
        spec_dec_str(s.cold_cache_capacity as u64),
    )
}

/// The whole exposition: the product cache's blocks, then the SSR cache's.
pub open spec fn spec_prometheus_text(
    p: ProductCacheMetricsSnapshot,
    s: SSRCacheMetricsSnapshot,
) -> Seq<char> {
    spec_product_metrics_text(p) + spec_ssr_metrics_text(s)
}

/// Append the SSR cache's blocks to an exposition under construction.
pub fn append_ssr_metrics(buffer: &mut String, ssr: &SSRCacheMetricsSnapshot)
    ensures
        final(buffer)@ == old(buffer)@ + spec_ssr_metrics_text(*ssr),
{
    let v = u64_to_dec(ssr.lookups);
    push_block(
        buffer,
        "enddel_ssr_cache_lookups_total",
        "Total cache lookups for SSR cache",
        "counter",
        v.as_str(),
    );
    let v = u64_to_dec(ssr.hot_hits);
    push_block(
        buffer,
        "enddel_ssr_cache_hot_hits_total",
        "Hot cache hits for SSR cache",
        "counter",
        v.as_str(),
    );
    let v = u64_to_dec(ssr.cold_hits);
    push_block(
        buffer,
        "enddel_ssr_cache_cold_hits_total",
        "Cold cache hits for SSR cache",
        "counter",
        v.as_str(),
    );
    let v = u64_to_dec(ssr.misses);
    push_block(
        buffer,
        "enddel_ssr_cache_misses_total",
        "Cache misses for SSR cache",
        "counter",
        v.as_str(),
    );
    let v = u64_to_dec(ssr.promotions);
    push_block(
        buffer,
        "enddel_ssr_cache_promotions_total",
        "Promotions from cold cache to hot cache",
        "counter",
        v.as_str(),
    );
    let v = u64_to_dec(ssr.renders);
    push_block(
        buffer,
        "enddel_ssr_cache_renders_total",
        "Rendered SSR responses",
        "counter",
        v.as_str(),
    );
    let v = u64_to_dec(ssr.render_errors);
    push_block(
        buffer,
        "enddel_ssr_cache_render_errors_total",
        "SSR rendering errors",
        "counter",
        v.as_str(),
    );
    let v = u64_to_dec(ssr.cold_insertions);
    push_block(
        buffer,
        "enddel_ssr_cache_cold_insertions_total",
        "Cold cache insertions",
        "counter",
        v.as_str(),
    );
    let v = u64_to_dec(ssr.cold_evictions);
    push_block(
        buffer,
        "enddel_ssr_cache_cold_evictions_total",
        "Cold cache evictions",
        "counter",
        v.as_str(),
    );
    let v = u64_to_dec(ssr.hot_insertions);
    push_block(
        buffer,
        "enddel_ssr_cache_hot_insertions_total",
        "Hot cache insertions",
        "counter",
        v.as_str(),
    );
    let v = nanos_seconds_text(ssr.last_render_ns);
    push_block(
        buffer,
        "enddel_ssr_cache_last_render_seconds",
        "Duration of the last SSR render in seconds",
        "gauge",
        v.as_str(),
    );
    let v = usize_to_dec(ssr.cold_cache_size);
    push_block(
        buffer,
        "enddel_ssr_cache_cold_cache_size",
        "Number of entries in cold cache",
        "gauge",
        v.as_str(),
    );
    let v = usize_to_dec(ssr.cold_cache_capacity);
    push_block(
        buffer,
        "enddel_ssr_cache_cold_cache_capacity",
        "Configured cold cache capacity",
        "gauge",
        v.as_str(),
    );
    proof {
        assert(buffer@ =~= old(buffer)@ + spec_ssr_metrics_text(*ssr));
    }
}

/// Render both snapshots in the Prometheus text exposition format.
pub fn format_prometheus_metrics(
    product: &ProductCacheMetricsSnapshot,
    ssr: &SSRCacheMetricsSnapshot,
) -> (r: String)
    ensures
        r@ == spec_prometheus_text(*product, *ssr),
{
    let mut out = String::new();
    let v = u64_to_dec(product.lazy_hits);
    push_block(
        &mut out,
        "enddel_product_cache_lazy_hits_total",
        "Total cache hits for lazy product data",
        "counter",
        v.as_str(),
    );
    let v = u64_to_dec(product.lazy_misses);
    push_block(
        &mut out,
        "enddel_product_cache_lazy_misses_total",
        "Total cache misses for lazy product data",
        "counter",
        v.as_str(),
    );
    let v = u64_to_dec(product.lazy_fetch_success);
    push_block(
        &mut out,
        "enddel_product_cache_lazy_fetch_success_total",
        "Successful lazy fetches",
        "counter",
        v.as_str(),
    );
    let v = u64_to_dec(product.lazy_fetch_errors);
    push_block(
        &mut out,
        "enddel_product_cache_lazy_fetch_errors_total",
        "Failed lazy fetches",
        "counter",
        v.as_str(),
    );
    let v = u64_to_dec(product.lazy_evictions);
    push_block(
        &mut out,
        "enddel_product_cache_lazy_evictions_total",
        "Lazy cache evictions",
        "counter",
        v.as_str(),
    );
    let v = nanos_seconds_text(product.lazy_last_fetch_ns);
    push_block(
        &mut out,
        "enddel_product_cache_lazy_last_fetch_seconds",
        "Duration of the last lazy fetch in seconds",
        "gauge",
        v.as_str(),
    );
    let v = usize_to_dec(product.lazy_cache_len);
    push_block(
        &mut out,
        "enddel_product_cache_lazy_cache_size",
        "Number of entries in lazy cache",
        "gauge",
        v.as_str(),
    );
    let v = usize_to_dec(product.lazy_cache_capacity);
    push_block(
        &mut out,
        "enddel_product_cache_lazy_cache_capacity",
        "Configured lazy cache capacity",
        "gauge",
        v.as_str(),
    );
    let v = u64_to_dec(product.critical_hits);
    push_block(
        &mut out,
        "enddel_product_cache_critical_hits_total",
        "Critical data cache hits",
        "counter",
        v.as_str(),
    );
    let v = u64_to_dec(product.critical_misses);
    push_block(
        &mut out,
        "enddel_product_cache_critical_misses_total",
        "Critical data cache misses",
        "counter",
        v.as_str(),
    );
    let v = u64_to_dec(product.critical_refresh_success);
    push_block(
        &mut out,
        "enddel_product_cache_critical_refresh_success_total",
        "Successful critical refreshes",
        "counter",
        v.as_str(),
    );
    let v = u64_to_dec(product.critical_refresh_errors);
    push_block(
        &mut out,
        "enddel_product_cache_critical_refresh_errors_total",
        "Failed critical refreshes",
        "counter",
        v.as_str(),
    );
    let v = nanos_seconds_text(product.critical_last_refresh_ns);
    push_block(
        &mut out,
        "enddel_product_cache_critical_last_refresh_seconds",
        "Duration of the last critical refresh in seconds",
        "gauge",
        v.as_str(),
    );
    let v = usize_to_dec(product.critical_cached_entries);
    push_block(
        &mut out,
        "enddel_product_cache_critical_cached_entries",
        "Number of cached critical entries",
        "gauge",
        v.as_str(),
    );
    let v = millis_seconds_text(product.critical_cache_age_ms);
    push_block(
        &mut out,
        "enddel_product_cache_critical_cache_age_seconds",
        "Age of cached critical data in seconds",
        "gauge",
        v.as_str(),
    );
    proof {
        assert(out@ =~= spec_product_metrics_text(*product));
    }
    append_ssr_metrics(&mut out, ssr);
    out
}

} // verus!
