//! The multi-tier render cache: a thread-confined hot tier layered over the
//! shared cold tier, with metrics and an O(1) whole-cache clear.
//!
//! A value of this type is one thread's handle: it owns that thread's hot
//! state together with the cold tier and the counters. Lookups consult the
//! hot tier first (without reordering it), then the cold tier, promoting
//! cold hits into the hot tier. `clear` empties the cold tier and bumps a
//! generation counter; a hot state whose generation does not match is
//! discarded before its next use, so stale hot entries can never be served
//! after a clear, on any thread, without any cross-thread coordination.

use vstd::prelude::*;
use std::sync::Arc;
use crate::cold::{empty_contents, ColdCache};
use crate::hashing::{hash_url, url_fingerprint};
use crate::hot::{secs_to_ns, HotCache};
use crate::sys::{arc_clone, wall_clock_now_ns};
use vstd::string::StringSliceAdditionalSpecFns;

verus! {

/// Add one to a counter, stopping at the top of the range rather than
/// wrapping.
pub open spec fn bump(x: u64) -> u64 {
    if x == u64::MAX {
        x
    } else {
        (x + 1) as u64
    }
}

/// Add one to a counter, stopping at the top of the range.
pub fn bump1(x: u64) -> (r: u64)
    ensures
        r == bump(x),
{
    if x == u64::MAX {
        x
    } else {
        x + 1
    }
}

/// The TTL in nanoseconds that a TTL configured in whole seconds denotes;
/// zero seconds means no expiry.
pub open spec fn ttl_of_secs(secs: u64) -> Option<u64> {
    if secs == 0 {
        None
    } else {
        Some(secs_to_ns(secs))
    }
}

/// The monotonic counters the cache keeps while it runs.
pub struct MetricsState {
    pub lookups: u64,
    pub hot_hits: u64,
    pub cold_hits: u64,
    pub misses: u64,
    pub promotions: u64,
    pub insertions: u64,
    pub evictions: u64,
    pub last_access_ns: u64,
}

/// A read-only snapshot of the cache metrics.
#[derive(Clone, Debug)]
pub struct CacheMetrics {
    /// Total cache lookups.
    pub lookups: u64,
    /// Hits served from the hot tier.
    pub hot_hits: u64,
    /// Hits served from the cold tier.
    pub cold_hits: u64,
    /// Lookups that found nothing.
    pub misses: u64,
    /// Promotions from the cold tier into the hot tier.
    pub promotions: u64,
    /// Total insertions.
    pub insertions: u64,
    /// Inserts that had to evict from the cold tier.
    pub evictions: u64,
    /// Duration of the last hit, in nanoseconds.
    pub last_access_ns: u64,
    /// Current cold-tier size.
    pub cold_size: usize,
    /// Cold-tier capacity.
    pub cold_capacity: usize,
}

/// The hit rate that a snapshot denotes, in hundredths of a percent of
/// lookups, saturating at the top of the range.
pub open spec fn spec_hit_rate_bp(m: CacheMetrics) -> u64 {
    if m.lookups == 0 {
        0
    } else {
        let r = (m.hot_hits + m.cold_hits) * 10000 / (m.lookups as int);
        if r > u64::MAX {
            u64::MAX
        } else {
            r as u64
        }
    }
}

impl CacheMetrics {
    /// Hit rate in hundredths of a percent: 10000 means every lookup hit.
    pub fn hit_rate_bp(&self) -> (r: u64)
        ensures
            r == spec_hit_rate_bp(*self),
    {
        if self.lookups == 0 {
            0
        } else {
            let hits = self.hot_hits as u128 + self.cold_hits as u128;
            let rate = hits * 10000 / (self.lookups as u128);
            if rate > u64::MAX as u128 {
                u64::MAX
            } else {
                rate as u64
            }
        }
    }
}

/// One thread's hot state: the hot cache, tagged with the cache generation
/// it was last synchronized to.
pub struct HotState {
    pub generation: u64,
    pub cache: HotCache,
}

/// The multi-tier SSR cache, as one thread sees it.
pub struct SsrCache {
    hot: HotState,
    cold: ColdCache,
    ttl_secs: u64,
    generation: u64,
    metrics: MetricsState,
}

impl SsrCache {
    /// The cold tier.
    pub closed spec fn cold_state(self) -> ColdCache {
        self.cold
    }

    /// The cold tier's stored entries.
    pub open spec fn cold_view(self) -> Map<u64, (Seq<char>, Seq<char>, u64, u64)> {
        self.cold_state().contents()
    }

    /// The cold tier's capacity.
    pub open spec fn cold_capacity(self) -> usize {
        self.cold_state().spec_capacity()
    }

    /// The cold tier's access counter.
    pub open spec fn cold_counter(self) -> u64 {
        self.cold_state().counter()
    }

    /// This thread's hot cache.
    pub closed spec fn hot(self) -> HotCache {
        self.hot.cache
    }

    /// The generation this thread's hot state was last synchronized to.
    pub closed spec fn hot_gen(self) -> u64 {
        self.hot.generation
    }

    /// The cache's generation, bumped by every `clear`.
    pub closed spec fn gen(self) -> u64 {
        self.generation
    }

    /// The configured TTL in whole seconds; zero means no expiry.
    pub closed spec fn spec_ttl_secs(self) -> u64 {
        self.ttl_secs
    }

    /// The current counters.
    pub closed spec fn m(self) -> MetricsState {
        self.metrics
    }

    /// Whether this thread's hot state is of the current generation. A hot
    /// state that is not is discarded before its next use.
    pub open spec fn hot_live(self) -> bool {
        self.hot_gen() == self.gen()
    }

    /// Whether a lookup of this fingerprint can find anything, once the hot
    /// state has been synchronized: an out-of-generation hot tier no longer
    /// counts.
    pub open spec fn has_synced(self, fp: u64) -> bool {
        (self.hot_live() && self.hot().contains_fp(fp)) || self.cold_view().contains_key(fp)
    }

    /// The HTML a lookup of this fingerprint reads: the live hot tier
    /// first, then the cold tier.
    pub open spec fn value_synced(self, fp: u64) -> Seq<char> {
        if self.hot_live() && self.hot().contains_fp(fp) {
            self.hot().value_of(fp)
        } else {
            self.cold_view()[fp].0
        }
    }

    /// Well-formedness: both tiers well-formed and configured with the same
    /// TTL, and the hot generation never ahead of the cache's.
    pub open spec fn wf(self) -> bool {
        &&& self.cold_state().wf()
        &&& self.hot().wf()
        &&& self.hot_gen() <= self.gen()
        &&& self.hot().ttl_ns() == ttl_of_secs(self.spec_ttl_secs())
        &&& self.cold_state().spec_ttl() == ttl_of_secs(self.spec_ttl_secs())
        &&& Self::metrics_consistent(self.m())
    }

    /// The lookup counters add up: every lookup counts as exactly one hot
    /// hit, cold hit or miss, so below saturation the three partition the
    /// lookups (the relation behind the hit rate).
    pub open spec fn metrics_consistent(m: MetricsState) -> bool {
        m.lookups < u64::MAX ==> m.lookups == m.hot_hits + m.cold_hits + m.misses
    }

    /// All counters zero.
    pub open spec fn metrics_zero(m: MetricsState) -> bool {
        m.lookups == 0 && m.hot_hits == 0 && m.cold_hits == 0 && m.misses == 0 && m.promotions == 0
            && m.insertions == 0 && m.evictions == 0 && m.last_access_ns == 0
    }

    /// Create a new SSR cache with no TTL. The cold capacity must be
    /// positive, as a validated configuration guarantees.
    pub fn new(max_cold_entries: usize) -> (r: Self)
        requires
            max_cold_entries >= 1,
        ensures
            r.wf(),
            r.cold_view() == empty_contents(),
            r.cold_capacity() == max_cold_entries,
            r.spec_ttl_secs() == 0,
            r.hot_live(),
            r.gen() == 0,
            r.cold_counter() == 0,
            forall|fp: u64| !r.hot().contains_fp(fp),
            Self::metrics_zero(r.m()),
    {
        Self::with_ttl(max_cold_entries, 0)
    }

    /// Create a new SSR cache whose entries expire `ttl_secs` seconds after
    /// insertion; 0 means no expiry. The cold capacity must be positive.
    pub fn with_ttl(max_cold_entries: usize, ttl_secs: u64) -> (r: Self)
        requires
            max_cold_entries >= 1,
        ensures
            r.wf(),
            r.cold_view() == empty_contents(),
            r.cold_capacity() == max_cold_entries,
            r.spec_ttl_secs() == ttl_secs,
            r.hot_live(),
            r.gen() == 0,
            r.cold_counter() == 0,
            forall|fp: u64| !r.hot().contains_fp(fp),
            Self::metrics_zero(r.m()),
    {
        SsrCache {
            hot: HotState { generation: 0, cache: HotCache::with_ttl(ttl_secs) },
            cold: ColdCache::with_ttl(max_cold_entries, ttl_secs),
            ttl_secs,
            generation: 0,
            metrics: MetricsState {
                lookups: 0,
                hot_hits: 0,
                cold_hits: 0,
                misses: 0,
                promotions: 0,
                insertions: 0,
                evictions: 0,
                last_access_ns: 0,
            },
        }
    }

    /// Discard this thread's hot state if its generation is stale.
    fn sync_hot(&mut self)
        requires
            old(self).wf(),
        ensures
            final(self).wf(),
            final(self).gen() == old(self).gen(),
            final(self).hot_gen() == old(self).gen(),
            final(self).cold_state() == old(self).cold_state(),
            final(self).spec_ttl_secs() == old(self).spec_ttl_secs(),
            final(self).m() == old(self).m(),
            old(self).hot_live() ==> final(self).hot() == old(self).hot(),
            !old(self).hot_live() ==> forall|fp: u64| !final(self).hot().contains_fp(fp),
    {
        if self.hot.generation != self.generation {
            self.hot.cache.clear();
            self.hot.generation = self.generation;
        }
    }

    /// What a lookup guarantees, relating the state before the call (`pre`),
    /// the state after it (`post`), the fingerprint looked up, and the
    /// result (as a character sequence). A hit returns a blob previously
    /// stored under that fingerprint and counts as exactly one hot or cold
    /// hit (a cold hit advances the access counter); a miss counts as
    /// exactly one miss and leaves the last-access gauge alone; no stored
    /// blob and no other fingerprint's hot entry ever changes; with no TTL
    /// configured, hit and presence coincide, and a present hot entry is
    /// served from the hot tier. (On a hit the gauge takes the elapsed time
    /// of this lookup, a clock-dependent value.)
    pub open spec fn try_get_post(
        pre: SsrCache,
        post: SsrCache,
        fp: u64,
        r: Option<Seq<char>>,
    ) -> bool {
        &&& post.gen() == pre.gen()
        &&& post.spec_ttl_secs() == pre.spec_ttl_secs()
        &&& post.cold_capacity() == pre.cold_capacity()
        &&& post.hot_gen() == pre.gen()
        &&& post.m().lookups == bump(pre.m().lookups)
        &&& post.m().insertions == pre.m().insertions
        &&& post.m().evictions == pre.m().evictions
        &&& match r {
            Some(h) => {
                &&& pre.has_synced(fp)
                &&& (h == pre.value_synced(fp) || (pre.cold_view().contains_key(fp) && h
                    == pre.cold_view()[fp].0))
                &&& post.m().misses == pre.m().misses
                &&& ((post.m().hot_hits == bump(pre.m().hot_hits) && post.m().cold_hits == pre.m().cold_hits
                    && post.m().promotions == pre.m().promotions && post.cold_state()
                    == pre.cold_state()) || (post.m().cold_hits == bump(
                    pre.m().cold_hits,
                ) && post.m().hot_hits == pre.m().hot_hits && post.m().promotions == bump(
                    pre.m().promotions,
                ) && (pre.cold_counter() < u64::MAX ==> post.cold_counter() == pre.cold_counter()
                    + 1)))
                &&& post.cold_view().dom() == pre.cold_view().dom()
                &&& forall|k: u64|
                    k != fp && #[trigger] post.cold_view().contains_key(k)
                        ==> post.cold_view()[k] == pre.cold_view()[k]
                &&& pre.hot_live() ==> forall|k: u64|
                    k != fp && #[trigger] post.hot().contains_fp(k) ==> pre.hot().contains_fp(k)
                        && post.hot().value_of(k) == pre.hot().value_of(k)
                &&& !pre.hot_live() ==> forall|k: u64| k != fp ==> !post.hot().contains_fp(k)
                &&& post.has_synced(fp)
                &&& post.value_synced(fp) == h
            },
            None => {
                &&& post.m().misses == bump(pre.m().misses)
                &&& post.m().hot_hits == pre.m().hot_hits
                &&& post.m().cold_hits == pre.m().cold_hits
                &&& post.m().promotions == pre.m().promotions
                &&& post.m().last_access_ns == pre.m().last_access_ns
                &&& post.cold_counter() == pre.cold_counter()
                &&& (pre.spec_ttl_secs() == 0 ==> !pre.has_synced(fp))
                &&& forall|k: u64|
                    k != fp ==> ((#[trigger] post.cold_view().contains_key(k))
                        <==> pre.cold_view().contains_key(k))
                &&& forall|k: u64|
                    k != fp && #[trigger] post.cold_view().contains_key(k)
                        ==> post.cold_view()[k] == pre.cold_view()[k]
                &&& pre.hot_live() ==> post.hot() == pre.hot()
                &&& !pre.hot_live() ==> forall|k: u64| !post.hot().contains_fp(k)
            },
        }
        &&& (pre.spec_ttl_secs() == 0 && pre.hot_live() && pre.hot().contains_fp(fp) ==> (r
            == Some(pre.hot().value_of(fp)) && post.m().hot_hits == bump(pre.m().hot_hits)
            && post.hot() == pre.hot()))
    }

    /// Try to get cached HTML: the hot tier first (without reordering it),
    /// then the cold tier, promoting a cold hit into the hot tier.
    pub fn try_get(&mut self, url: &str) -> (r: Option<Arc<String>>)
        requires
            old(self).wf(),
        ensures
            final(self).wf(),
            Self::try_get_post(
                *old(self),
                *final(self),
                url_fingerprint(url.spec_bytes()),
                match r {
                    Some(h) => Some(h@),
                    None => None,
                },
            ),
    {
        let url_hash = hash_url(url);
        let start = wall_clock_now_ns();
        self.sync_hot();
        self.metrics.lookups = bump1(self.metrics.lookups);
        let ghost synced = *self;
        match self.hot.cache.peek(url_hash) {
            Some(html) => {
                self.metrics.hot_hits = bump1(self.metrics.hot_hits);
                self.metrics.last_access_ns = wall_clock_now_ns().saturating_sub(start);
                Some(html)
            },
            None => {
                match self.cold.get(url_hash) {
                    Some(html) => {
                        self.metrics.cold_hits = bump1(self.metrics.cold_hits);
                        self.hot.cache.insert(url_hash, arc_clone(&html));
                        self.metrics.promotions = bump1(self.metrics.promotions);
                        self.metrics.last_access_ns = wall_clock_now_ns().saturating_sub(start);
                        Some(html)
                    },
                    None => {
                        self.metrics.misses = bump1(self.metrics.misses);
                        None
                    },
                }
            },
        }
    }

    /// What an insert guarantees: the fingerprint is now stored in both
    /// tiers with exactly this HTML, stamped from the access counter, which
    /// advances; nothing else enters either tier and no other stored blob
    /// changes (in the hot tier, at most its insertion-order head is
    /// displaced); the cold tier stays within capacity, evicting a batch
    /// exactly when the insert found it full; and the insertion counter
    /// moves by one while the lookup counters and the gauge stay put.
    pub open spec fn insert_post(
        pre: SsrCache,
        post: SsrCache,
        fp: u64,
        url: Seq<char>,
        html: Seq<char>,
    ) -> bool {
        &&& post.gen() == pre.gen()
        &&& post.spec_ttl_secs() == pre.spec_ttl_secs()
        &&& post.cold_capacity() == pre.cold_capacity()
        &&& post.hot_gen() == pre.gen()
        &&& post.cold_view().contains_key(fp)
        &&& post.cold_view()[fp].0 == html
        &&& post.cold_view()[fp].1 == url
        &&& post.cold_view().dom().len() <= post.cold_capacity()
        &&& post.hot_live()
        &&& post.hot().contains_fp(fp)
        &&& post.hot().value_of(fp) == html
        &&& post.m().insertions == bump(pre.m().insertions)
        &&& post.m().lookups == pre.m().lookups
        &&& post.m().hot_hits == pre.m().hot_hits
        &&& post.m().cold_hits == pre.m().cold_hits
        &&& post.m().misses == pre.m().misses
        &&& post.m().promotions == pre.m().promotions
        &&& post.m().last_access_ns == pre.m().last_access_ns
        &&& pre.cold_counter() < u64::MAX ==> post.cold_counter() == pre.cold_counter() + 1
            && post.cold_view()[fp].2 == pre.cold_counter()
        &&& pre.cold_counter() == u64::MAX ==> post.cold_counter() == 1 && post.cold_view().dom()
            == empty_contents().dom().insert(fp)
        &&& pre.cold_counter() < u64::MAX ==> forall|k: u64|
            k != fp && #[trigger] post.cold_view().contains_key(k)
                ==> pre.cold_view().contains_key(k) && post.cold_view()[k] == pre.cold_view()[k]
        &&& pre.cold_counter() < u64::MAX && pre.cold_view().dom().len() < pre.cold_capacity()
            ==> post.m().evictions == pre.m().evictions && post.cold_view().dom()
            == pre.cold_view().dom().insert(fp)
        &&& pre.cold_counter() < u64::MAX && pre.cold_view().dom().len() >= pre.cold_capacity()
            ==> post.m().evictions == bump(pre.m().evictions)
        &&& pre.hot_live() ==> forall|k: u64|
            k != fp && #[trigger] post.hot().contains_fp(k) ==> pre.hot().contains_fp(k)
                && post.hot().value_of(k) == pre.hot().value_of(k)
        &&& pre.hot_live() ==> forall|k: u64|
            k != fp && #[trigger] pre.hot().contains_fp(k) ==> post.hot().contains_fp(k) || (
            pre.hot().order().len() > 0 && k == pre.hot().order()[0])
        &&& !pre.hot_live() ==> forall|k: u64| k != fp ==> !post.hot().contains_fp(k)
    }

    /// Insert rendered HTML under its URL, into the cold tier and this
    /// thread's hot tier.
    pub fn insert(&mut self, url: &str, html: Arc<String>)
        requires
            old(self).wf(),
        ensures
            final(self).wf(),
            Self::insert_post(
                *old(self),
                *final(self),
                url_fingerprint(url.spec_bytes()),
                url@,
                html@,
            ),
    {
        let url_hash = hash_url(url);
        self.sync_hot();
        let evicted = self.cold.insert(url_hash, url, arc_clone(&html));
        self.metrics.insertions = bump1(self.metrics.insertions);
        if evicted > 0 {
            self.metrics.evictions = bump1(self.metrics.evictions);
        }
        self.hot.cache.insert(url_hash, html);
    }

    /// What a clear guarantees: the cold tier is empty, the generation has
    /// moved past every existing hot state's, the counters are reset, and
    /// no hot state is touched (each discards itself on its next use).
    pub open spec fn clear_post(pre: SsrCache, post: SsrCache) -> bool {
        &&& post.cold_view() == empty_contents()
        &&& post.gen() == bump(pre.gen())
        &&& post.hot() == pre.hot()
        &&& post.hot_gen() == pre.hot_gen()
        &&& post.spec_ttl_secs() == pre.spec_ttl_secs()
        &&& post.cold_capacity() == pre.cold_capacity()
        &&& post.cold_counter() == pre.cold_counter()
        &&& Self::metrics_zero(post.m())
    }

    /// Clear the cache: empty the cold tier, move to a new generation (so
    /// that every thread's hot state discards itself on its next use), and
    /// reset the metrics.
    pub fn clear(&mut self)
        requires
            old(self).wf(),
        ensures
            final(self).wf(),
            Self::clear_post(*old(self), *final(self)),
    {
        self.cold.clear();
        self.generation = bump1(self.generation);
        self.reset_metrics();
    }

    fn reset_metrics(&mut self)
        ensures
            final(self).cold_state() == old(self).cold_state(),
            final(self).hot() == old(self).hot(),
            final(self).hot_gen() == old(self).hot_gen(),
            final(self).gen() == old(self).gen(),
            final(self).spec_ttl_secs() == old(self).spec_ttl_secs(),
            Self::metrics_zero(final(self).m()),
    {
        self.metrics.lookups = 0;
        self.metrics.hot_hits = 0;
        self.metrics.cold_hits = 0;
        self.metrics.misses = 0;
        self.metrics.promotions = 0;
        self.metrics.insertions = 0;
        self.metrics.evictions = 0;
        self.metrics.last_access_ns = 0;
    }

    /// Drop one URL from the cold tier; reports whether it was stored
    /// there. Hot tiers are invalidated wholesale only by `clear`'s
    /// generation bump: after a single-URL invalidation, a thread that
    /// still holds the entry in its hot tier may briefly serve it until it
    /// is displaced.
    pub fn invalidate(&mut self, url: &str) -> (r: bool)
        requires
            old(self).wf(),
        ensures
            final(self).wf(),
            final(self).cold_view() == old(self).cold_view().remove(
                url_fingerprint(url.spec_bytes()),
            ),
            r == old(self).cold_view().contains_key(url_fingerprint(url.spec_bytes())),
            final(self).gen() == old(self).gen(),
            final(self).hot() == old(self).hot(),
            final(self).hot_gen() == old(self).hot_gen(),
            final(self).spec_ttl_secs() == old(self).spec_ttl_secs(),
            final(self).cold_capacity() == old(self).cold_capacity(),
            final(self).cold_counter() == old(self).cold_counter(),
            final(self).m() == old(self).m(),
    {
        let fp = hash_url(url);
        self.cold.remove(fp)
    }

    /// Current number of entries in the cold tier.
    pub fn size(&self) -> (r: usize)
        ensures
            r == self.cold_view().dom().len(),
    {
        self.cold.len()
    }

    /// A snapshot of the counters, together with the cold tier's size and
    /// capacity.
    pub fn metrics(&self) -> (r: CacheMetrics)
        ensures
            r.lookups == self.m().lookups,
            r.hot_hits == self.m().hot_hits,
            r.cold_hits == self.m().cold_hits,
            r.misses == self.m().misses,
            r.promotions == self.m().promotions,
            r.insertions == self.m().insertions,
            r.evictions == self.m().evictions,
            r.last_access_ns == self.m().last_access_ns,
            r.cold_size == self.cold_view().dom().len(),
            r.cold_capacity == self.cold_capacity(),
            Self::metrics_consistent(self.m()) ==> (r.lookups < u64::MAX ==> r.lookups
                == r.hot_hits + r.cold_hits + r.misses),
    {
        CacheMetrics {
            lookups: self.metrics.lookups,
            hot_hits: self.metrics.hot_hits,
            cold_hits: self.metrics.cold_hits,
            misses: self.metrics.misses,
            promotions: self.metrics.promotions,
            insertions: self.metrics.insertions,
            evictions: self.metrics.evictions,
            last_access_ns: self.metrics.last_access_ns,
            cold_size: self.cold.len(),
            cold_capacity: self.cold.capacity(),
        }
    }

    /// Round-trip law: insert a URL, then look the same URL up, with no TTL
    /// configured. The lookup returns byte-identical HTML, counts exactly
    /// one more hot hit, and performs no insertion.
    pub proof fn lemma_round_trip(
        s0: SsrCache,
        s1: SsrCache,
        s2: SsrCache,
        fp: u64,
        url: Seq<char>,
        html: Seq<char>,
        r: Option<Seq<char>>,
    )
        requires
            s1.spec_ttl_secs() == 0,
            Self::insert_post(s0, s1, fp, url, html),
            Self::try_get_post(s1, s2, fp, r),
        ensures
            r == Some(html),
            s2.m().hot_hits == bump(s1.m().hot_hits),
            s2.m().insertions == s1.m().insertions,
    {
    }

    /// Generation-clear law: after `clear`, no fingerprint can be found by
    /// any thread's next lookup: the cold tier is empty, and every hot
    /// state's generation is stale, so it is discarded before use.
    pub proof fn lemma_clear_then_miss(pre: SsrCache, post: SsrCache, fp: u64)
        requires
            pre.wf(),
            pre.gen() < u64::MAX,
            Self::clear_post(pre, post),
        ensures
            !post.has_synced(fp),
    {
    }

    /// A cleared cache misses: composed with `try_get`'s contract, the next
    /// lookup of any fingerprint after a clear returns nothing and counts a
    /// miss.
    pub proof fn lemma_miss_when_absent(pre: SsrCache, post: SsrCache, fp: u64, r: Option<Seq<char>>)
        requires
            !pre.has_synced(fp),
            Self::try_get_post(pre, post, fp, r),
        ensures
            r is None,
            post.m().misses == bump(pre.m().misses),
    {
    }

    /// Generation-clear law, end to end: a `clear` followed by a lookup of
    /// any fingerprint misses, whatever was inserted before the clear.
    pub proof fn lemma_clear_then_lookup_misses(
        s0: SsrCache,
        s1: SsrCache,
        s2: SsrCache,
        fp: u64,
        r: Option<Seq<char>>,
    )
        requires
            s0.wf(),
            s0.gen() < u64::MAX,
            Self::clear_post(s0, s1),
            Self::try_get_post(s1, s2, fp, r),
        ensures
            r is None,
            s2.m().misses == bump(s1.m().misses),
    {
        Self::lemma_clear_then_miss(s0, s1, fp);
        Self::lemma_miss_when_absent(s1, s2, fp, r);
    }
}

} // verus!
