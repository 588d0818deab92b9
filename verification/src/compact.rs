//! A compact variant of the cache stack: a fixed eight-slot hot ring per
//! thread over the shared cold tier, with render bookkeeping.
//!
//! This is the stack an embedding server uses when it wants the smallest
//! possible hot tier: eight entries in a cache-line-sized ring, replaced
//! round-robin, with no TTL. Versioned lookups append a data version to the
//! URL before fingerprinting, so a version change naturally misses the
//! entries of the old version.

use vstd::prelude::*;
use std::sync::Arc;
use vstd::utf8::encode_utf8;
use crate::cold::ColdCache;
use crate::hashing::{hash_url, url_fingerprint};
use crate::sys::arc_clone;
use crate::text::{spec_hex_str, u64_to_hex};
use crate::ssr_cache::{bump, bump1};
use vstd::string::StringSliceAdditionalSpecFns;

verus! {

/// Slots in the hot ring.
pub const RING_SIZE: usize = 8;

/// The ring index after one round-robin step.
pub open spec fn advance_ring(i: usize) -> usize {
    if i + 1 == RING_SIZE {
        0
    } else {
        (i + 1) as usize
    }
}

/// One cached render in the hot ring.
pub struct HotEntry {
    pub url_hash: u64,
    pub html: Arc<String>,
}

/// The per-thread hot ring: up to eight entries, replaced round-robin.
pub struct HotCache {
    entries: Vec<Option<HotEntry>>,
    next_insert: usize,
}

impl HotCache {
    /// The ring's slots.
    pub closed spec fn ring(self) -> Seq<Option<HotEntry>> {
        self.entries@
    }

    /// The slot the next insertion writes to.
    pub closed spec fn next_slot(self) -> usize {
        self.next_insert
    }

    /// The slot holding a fingerprint (unique, by well-formedness).
    pub open spec fn slot_of(self, fp: u64) -> int {
        choose|i: int|
            0 <= i < self.ring().len() && ((#[trigger] self.ring()[i]) matches Some(e)
                && e.url_hash == fp)
    }

    /// The slot an insert of this fingerprint writes: the slot already
    /// holding it if there is one, else the round-robin slot.
    pub open spec fn write_slot(self, fp: u64) -> int {
        if self.contains_fp(fp) {
            self.slot_of(fp)
        } else {
            self.next_slot() as int
        }
    }

    /// Whether some slot holds this fingerprint.
    pub open spec fn contains_fp(self, fp: u64) -> bool {
        exists|i: int|
            0 <= i < self.ring().len() && ((#[trigger] self.ring()[i]) matches Some(e)
                && e.url_hash == fp)
    }

    /// The entry stored for a fingerprint (unique, by well-formedness).
    pub open spec fn entry_of(self, fp: u64) -> HotEntry {
        let i = choose|i: int|
            0 <= i < self.ring().len() && ((#[trigger] self.ring()[i]) matches Some(e)
                && e.url_hash == fp);
        self.ring()[i]->Some_0
    }

    /// The HTML stored for a fingerprint.
    pub open spec fn value_of(self, fp: u64) -> Seq<char> {
        self.entry_of(fp).html@
    }

    /// Well-formedness: exactly eight slots, a valid ring index, and
    /// pairwise distinct fingerprints.
    pub open spec fn wf(self) -> bool {
        &&& self.ring().len() == RING_SIZE
        &&& self.next_slot() < RING_SIZE
        &&& forall|i: int, j: int|
            0 <= i < j < self.ring().len() && (#[trigger] self.ring()[i]) is Some && (
            #[trigger] self.ring()[j]) is Some ==> self.ring()[i]->Some_0.url_hash
                != self.ring()[j]->Some_0.url_hash
    }

    /// Number of occupied slots.
    pub open spec fn occupied(s: Seq<Option<HotEntry>>) -> nat
        decreases s.len(),
    {
        if s.len() == 0 {
            0
        } else {
            Self::occupied(s.drop_last()) + if s.last() is Some {
                1nat
            } else {
                0nat
            }
        }
    }

    proof fn lemma_occupied_all_none(s: Seq<Option<HotEntry>>)
        requires
            forall|i: int| 0 <= i < s.len() ==> (#[trigger] s[i]) is None,
        ensures
            Self::occupied(s) == 0,
        decreases s.len(),
    {
        if s.len() > 0 {
            Self::lemma_occupied_all_none(s.drop_last());
        }
    }

    /// Create a new empty hot ring.
    pub fn new() -> (r: Self)
        ensures
            r.wf(),
            forall|fp: u64| !r.contains_fp(fp),
            Self::occupied(r.ring()) == 0,
    {
        let mut entries: Vec<Option<HotEntry>> = Vec::with_capacity(RING_SIZE);
        for _i in 0..RING_SIZE
            invariant
                entries@.len() == _i,
                forall|j: int| 0 <= j < entries@.len() ==> (#[trigger] entries@[j]) is None,
        {
            entries.push(None);
        }
        let r = HotCache { entries, next_insert: 0 };
        proof {
            Self::lemma_occupied_all_none(r.ring());
            assert(forall|fp: u64| !r.contains_fp(fp));
        }
        r
    }

    /// Find the slot holding `fp`, if any.
    fn find_slot(&self, url_hash: u64) -> (r: Option<usize>)
        requires
            self.wf(),
        ensures
            match r {
                Some(i) => i < self.ring().len() && (self.ring()[i as int] matches Some(e)
                    && e.url_hash == url_hash && self.contains_fp(url_hash)),
                None => !self.contains_fp(url_hash),
            },
    {
        let mut i: usize = 0;
        while i < RING_SIZE
            invariant
                self.wf(),
                i <= RING_SIZE,
                forall|j: int|
                    0 <= j < i ==> !((#[trigger] self.ring()[j]) matches Some(e) && e.url_hash
                        == url_hash),
            decreases RING_SIZE - i,
        {
            match &self.entries[i] {
                Some(e) => {
                    if e.url_hash == url_hash {
                        return Some(i);
                    }
                },
                None => {},
            }
            i = i + 1;
        }
        None
    }

    /// The entry read for `fp` is the one in the slot `find_slot` returns.
    proof fn lemma_entry_at(self, url_hash: u64, i: int)
        requires
            self.wf(),
            0 <= i < self.ring().len(),
            self.ring()[i] matches Some(e) && e.url_hash == url_hash,
        ensures
            self.entry_of(url_hash) == self.ring()[i]->Some_0,
    {
        let j = choose|j: int|
            0 <= j < self.ring().len() && ((#[trigger] self.ring()[j]) matches Some(e)
                && e.url_hash == url_hash);
        if i != j {
            assert(false);
        }
    }

    /// The slot read for `fp` is the one `find_slot` returns.
    proof fn lemma_slot_at(self, url_hash: u64, i: int)
        requires
            self.wf(),
            0 <= i < self.ring().len(),
            self.ring()[i] matches Some(e) && e.url_hash == url_hash,
        ensures
            self.slot_of(url_hash) == i,
    {
        let j = choose|j: int|
            0 <= j < self.ring().len() && ((#[trigger] self.ring()[j]) matches Some(e)
                && e.url_hash == url_hash);
        if i != j {
            assert(false);
        }
    }

    /// Look up HTML by fingerprint: a hit returns exactly the stored blob,
    /// and hit and presence coincide.
    pub fn get(&self, url_hash: u64) -> (r: Option<Arc<String>>)
        requires
            self.wf(),
        ensures
            match r {
                Some(h) => self.contains_fp(url_hash) && h@ == self.value_of(url_hash),
                None => !self.contains_fp(url_hash),
            },
    {
        match self.find_slot(url_hash) {
            Some(i) => {
                proof {
                    self.lemma_entry_at(url_hash, i as int);
                }
                match &self.entries[i] {
                    Some(e) => Some(arc_clone(&e.html)),
                    None => {
                        proof {
                            assert(false);
                        }
                        None
                    },
                }
            },
            None => None,
        }
    }

    /// Insert a render result under its fingerprint: in place if the
    /// fingerprint is already stored, else into the round-robin slot, whose
    /// occupant (if any) it displaces, after which the slot index advances
    /// by one, wrapping at eight. Exactly one slot changes.
    pub fn insert(&mut self, url_hash: u64, html: Arc<String>)
        requires
            old(self).wf(),
        ensures
            final(self).wf(),
            final(self).contains_fp(url_hash),
            final(self).value_of(url_hash) == html@,
            final(self).ring() == old(self).ring().update(
                old(self).write_slot(url_hash),
                Some((HotEntry { url_hash: url_hash, html: html })),
            ),
            final(self).next_slot() == (if old(self).contains_fp(url_hash) {
                old(self).next_slot()
            } else {
                advance_ring(old(self).next_slot())
            }),
            forall|k: u64|
                k != url_hash && #[trigger] final(self).contains_fp(k) ==> old(self).contains_fp(k)
                    && final(self).value_of(k) == old(self).value_of(k),
            forall|k: u64|
                k != url_hash && #[trigger] old(self).contains_fp(k) ==> final(self).contains_fp(k)
                    || (old(self).ring()[old(self).next_slot() as int] matches Some(e)
                    && e.url_hash == k),
    {
        let entry = HotEntry { url_hash, html };
        match self.find_slot(url_hash) {
            Some(i) => {
                self.entries.remove(i);
                self.entries.insert(i, Some(entry));
                proof {
                    assert(self.ring() =~= old(self).ring().update(i as int, Some(entry)));
                    old(self).lemma_slot_at(url_hash, i as int);
                    self.lemma_entry_at(url_hash, i as int);
                    assert forall|k: u64|
                        k != url_hash && #[trigger] self.contains_fp(k) implies old(
                        self,
                    ).contains_fp(k) && self.value_of(k) == old(self).value_of(k) by {
                        let j = choose|j: int|
                            0 <= j < self.ring().len() && ((#[trigger] self.ring()[j])
                                matches Some(e) && e.url_hash == k);
                        assert(j != i);
                        assert(old(self).ring()[j] == self.ring()[j]);
                        self.lemma_entry_at(k, j);
                        old(self).lemma_entry_at(k, j);
                    }
                    assert forall|k: u64|
                        k != url_hash && #[trigger] old(self).contains_fp(k) implies self
                        .contains_fp(k) by {
                        let j = choose|j: int|
                            0 <= j < old(self).ring().len() && ((#[trigger] old(self).ring()[j])
                                matches Some(e) && e.url_hash == k);
                        assert(j != i);
                        assert(self.ring()[j] == old(self).ring()[j]);
                    }
                }
            },
            None => {
                let next = self.next_insert;
                self.entries.remove(next);
                self.entries.insert(next, Some(entry));
                self.next_insert = if next + 1 == RING_SIZE {
                    0
                } else {
                    next + 1
                };
                proof {
                    assert(self.ring() =~= old(self).ring().update(next as int, Some(entry)));
                    self.lemma_entry_at(url_hash, next as int);
                    assert forall|k: u64|
                        k != url_hash && #[trigger] self.contains_fp(k) implies old(
                        self,
                    ).contains_fp(k) && self.value_of(k) == old(self).value_of(k) by {
                        let j = choose|j: int|
                            0 <= j < self.ring().len() && ((#[trigger] self.ring()[j])
                                matches Some(e) && e.url_hash == k);
                        assert(j != next);
                        assert(old(self).ring()[j] == self.ring()[j]);
                        self.lemma_entry_at(k, j);
                        old(self).lemma_entry_at(k, j);
                    }
                    assert forall|k: u64|
                        k != url_hash && #[trigger] old(self).contains_fp(k) implies self
                        .contains_fp(k) || (old(self).ring()[old(self).next_slot() as int]
                        matches Some(e) && e.url_hash == k) by {
                        let j = choose|j: int|
                            0 <= j < old(self).ring().len() && ((#[trigger] old(self).ring()[j])
                                matches Some(e) && e.url_hash == k);
                        if j != next {
                            assert(self.ring()[j] == old(self).ring()[j]);
                        }
                    }
                }
            },
        }
    }

    /// Number of cached entries.
    pub fn len(&self) -> (r: usize)
        requires
            self.wf(),
        ensures
            r == Self::occupied(self.ring()),
    {
        let mut count: usize = 0;
        let mut i: usize = 0;
        while i < RING_SIZE
            invariant
                self.wf(),
                i <= RING_SIZE,
                count == Self::occupied(self.ring().take(i as int)),
                count <= i,
            decreases RING_SIZE - i,
        {
            proof {
                assert(self.ring().take(i + 1).drop_last() =~= self.ring().take(i as int));
                assert(self.ring().take(i + 1).last() == self.ring()[i as int]);
            }
            match &self.entries[i] {
                Some(_) => {
                    count = count + 1;
                },
                None => {},
            }
            i = i + 1;
        }
        proof {
            assert(self.ring().take(RING_SIZE as int) =~= self.ring());
        }
        count
    }
}

/// The render counters the compact cache keeps while it runs.
pub struct RenderMetricsState {
    pub lookups: u64,
    pub hot_hits: u64,
    pub cold_hits: u64,
    pub misses: u64,
    pub promotions: u64,
    pub renders: u64,
    pub render_errors: u64,
    pub cold_insertions: u64,
    pub cold_evictions: u64,
    pub hot_insertions: u64,
    pub last_render_ns: u64,
}

/// A read-only snapshot of the compact cache's metrics.
#[derive(Clone, Debug)]
pub struct SSRCacheMetricsSnapshot {
    /// Total cache lookups.
    pub lookups: u64,
    /// Hits served from the hot ring.
    pub hot_hits: u64,
    /// Hits served from the cold tier.
    pub cold_hits: u64,
    /// Lookups that found nothing.
    pub misses: u64,
    /// Promotions from the cold tier into the hot ring.
    pub promotions: u64,
    /// Renders performed on misses.
    pub renders: u64,
    /// Renders that failed.
    pub render_errors: u64,
    /// Insertions into the cold tier.
    pub cold_insertions: u64,
    /// Cold-tier insertions that had to evict.
    pub cold_evictions: u64,
    /// Insertions into the hot ring.
    pub hot_insertions: u64,
    /// Duration of the last render, in nanoseconds.
    pub last_render_ns: u64,
    /// Current cold-tier size.
    pub cold_cache_size: usize,
    /// Cold-tier capacity.
    pub cold_cache_capacity: usize,
}

/// The fingerprint of a versioned cache key: the URL with `@v` and the
/// version in lower-case hex appended.
pub open spec fn versioned_fp(url: Seq<char>, version: u64) -> u64 {
    url_fingerprint(encode_utf8(url + "@v"@ + spec_hex_str(version)))
}

/// Append the data version to a URL, making a versioned cache key.
pub fn versioned_key(url: &str, version: u64) -> (r: String)
    ensures
        r@ == url@ + "@v"@ + spec_hex_str(version),
{
    let mut s = url.to_owned();
    s.append("@v");
    let hex = u64_to_hex(version);
    s.append(hex.as_str());
    s
}

/// The compact multi-tier SSR cache, as one thread sees it: the hot ring,
/// the shared cold tier, and the render counters.
pub struct SSRCache {
    hot: HotCache,
    cold: ColdCache,
    metrics: RenderMetricsState,
}

impl SSRCache {
    /// This thread's hot ring.
    pub closed spec fn hot(self) -> HotCache {
        self.hot
    }

    /// The cold tier.
    pub closed spec fn cold_state(self) -> ColdCache {
        self.cold
    }

    /// The cold tier's stored entries.
    pub open spec fn cold_view(self) -> Map<u64, (Seq<char>, Seq<char>, u64, u64)> {
        self.cold_state().contents()
    }

    /// The current counters.
    pub closed spec fn m(self) -> RenderMetricsState {
        self.metrics
    }

    /// Whether a lookup of this fingerprint can find anything.
    pub open spec fn has_fp(self, fp: u64) -> bool {
        self.hot().contains_fp(fp) || self.cold_view().contains_key(fp)
    }

    /// The HTML a lookup of this fingerprint reads: the hot ring first.
    pub open spec fn value_of(self, fp: u64) -> Seq<char> {
        if self.hot().contains_fp(fp) {
            self.hot().value_of(fp)
        } else {
            self.cold_view()[fp].0
        }
    }

    /// The lookup counters add up: every lookup counts as exactly one hot
    /// hit, cold hit or miss, so below saturation the three partition the
    /// lookups.
    pub open spec fn metrics_consistent(m: RenderMetricsState) -> bool {
        m.lookups < u64::MAX ==> m.lookups == m.hot_hits + m.cold_hits + m.misses
    }

    /// Well-formedness: both tiers well-formed, no TTL on the cold tier,
    /// and the lookup counters adding up.
    pub open spec fn wf(self) -> bool {
        &&& self.hot().wf()
        &&& self.cold_state().wf()
        &&& self.cold_state().spec_ttl() is None
        &&& Self::metrics_consistent(self.m())
    }

    /// Create a compact SSR cache. The cold capacity must be positive.
    pub fn new(max_cold_entries: usize) -> (r: Self)
        requires
            max_cold_entries >= 1,
        ensures
            r.wf(),
            forall|fp: u64| !r.has_fp(fp),
            r.cold_state().spec_capacity() == max_cold_entries,
            r.m().lookups == 0 && r.m().misses == 0 && r.m().renders == 0,
            r.m().hot_hits == 0 && r.m().cold_hits == 0 && r.m().promotions == 0,
            r.m().cold_insertions == 0 && r.m().cold_evictions == 0 && r.m().hot_insertions == 0,
            r.m().render_errors == 0,
    {
        SSRCache {
            hot: HotCache::new(),
            cold: ColdCache::new(max_cold_entries),
            metrics: RenderMetricsState {
                lookups: 0,
                hot_hits: 0,
                cold_hits: 0,
                misses: 0,
                promotions: 0,
                renders: 0,
                render_errors: 0,
                cold_insertions: 0,
                cold_evictions: 0,
                hot_insertions: 0,
                last_render_ns: 0,
            },
        }
    }

    /// What a lookup guarantees: with no TTL in this stack, hit and
    /// presence coincide exactly; a hit returns the stored blob and counts
    /// one hot or cold hit (a cold hit also counts a promotion); a miss
    /// counts one miss. Render and insertion counters never move.
    pub open spec fn lookup_post(
        pre: SSRCache,
        post: SSRCache,
        fp: u64,
        r: Option<Seq<char>>,
    ) -> bool {
        &&& post.cold_state().spec_capacity() == pre.cold_state().spec_capacity()
        &&& post.m().lookups == bump(pre.m().lookups)
        &&& post.m().renders == pre.m().renders
        &&& post.m().render_errors == pre.m().render_errors
        &&& post.m().cold_insertions == pre.m().cold_insertions
        &&& post.m().cold_evictions == pre.m().cold_evictions
        &&& (r is Some <==> pre.has_fp(fp))
        &&& match r {
            Some(h) => {
                &&& h == pre.value_of(fp)
                &&& post.m().misses == pre.m().misses
                &&& ((post.m().hot_hits == bump(pre.m().hot_hits) && post.m().cold_hits
                    == pre.m().cold_hits && post.m().promotions == pre.m().promotions
                    && post.m().hot_insertions == pre.m().hot_insertions) || (post.m().cold_hits
                    == bump(pre.m().cold_hits) && post.m().hot_hits == pre.m().hot_hits
                    && post.m().promotions == bump(pre.m().promotions) && post.m().hot_insertions
                    == bump(pre.m().hot_insertions)))
                &&& post.cold_view().dom() == pre.cold_view().dom()
                &&& forall|k: u64|
                    k != fp && #[trigger] post.cold_view().contains_key(k)
                        ==> post.cold_view()[k] == pre.cold_view()[k]
                &&& forall|k: u64|
                    k != fp && #[trigger] post.hot().contains_fp(k) ==> pre.hot().contains_fp(k)
                        && post.hot().value_of(k) == pre.hot().value_of(k)
                &&& post.has_fp(fp) && post.value_of(fp) == h
            },
            None => {
                &&& post.m().misses == bump(pre.m().misses)
                &&& post.m().hot_hits == pre.m().hot_hits
                &&& post.m().cold_hits == pre.m().cold_hits
                &&& post.m().promotions == pre.m().promotions
                &&& post.m().hot_insertions == pre.m().hot_insertions
                &&& post.hot() == pre.hot()
                &&& post.cold_view() == pre.cold_view()
            },
        }
    }

    /// Try to get cached HTML: the hot ring first, then the cold tier,
    /// promoting a cold hit into the ring.
    pub fn try_get(&mut self, url: &str) -> (r: Option<Arc<String>>)
        requires
            old(self).wf(),
        ensures
            final(self).wf(),
            Self::lookup_post(
                *old(self),
                *final(self),
                url_fingerprint(url.spec_bytes()),
                match r {
                    Some(h) => Some(h@),
                    None => None,
                },
            ),
    {
        let url_hash = hash_url(url);
        self.lookup_fp(url_hash)
    }

    /// Try to get cached HTML under a versioned key: the URL with the data
    /// version appended. Entries of another version never match.
    pub fn try_get_versioned(&mut self, url: &str, version: u64) -> (r: Option<Arc<String>>)
        requires
            old(self).wf(),
        ensures
            final(self).wf(),
            Self::lookup_post(
                *old(self),
                *final(self),
                versioned_fp(url@, version),
                match r {
                    Some(h) => Some(h@),
                    None => None,
                },
            ),
    {
        let key = versioned_key(url, version);
        let url_hash = hash_url(key.as_str());
        self.lookup_fp(url_hash)
    }

    fn lookup_fp(&mut self, url_hash: u64) -> (r: Option<Arc<String>>)
        requires
            old(self).wf(),
        ensures
            final(self).wf(),
            Self::lookup_post(
                *old(self),
                *final(self),
                url_hash,
                match r {
                    Some(h) => Some(h@),
                    None => None,
                },
            ),
    {
        self.metrics.lookups = bump1(self.metrics.lookups);
        match self.hot.get(url_hash) {
            Some(html) => {
                self.metrics.hot_hits = bump1(self.metrics.hot_hits);
                Some(html)
            },
            None => {
                match self.cold.get(url_hash) {
                    Some(html) => {
                        self.metrics.cold_hits = bump1(self.metrics.cold_hits);
                        self.hot.insert(url_hash, arc_clone(&html));
                        self.metrics.promotions = bump1(self.metrics.promotions);
                        self.metrics.hot_insertions = bump1(self.metrics.hot_insertions);
                        Some(html)
                    },
                    None => {
                        self.metrics.misses = bump1(self.metrics.misses);
                        proof {
                            assert(self.cold_view() =~= old(self).cold_view());
                        }
                        None
                    },
                }
            },
        }
    }

    /// What an insert guarantees: the fingerprint is stored in both tiers
    /// with exactly this HTML, the cold tier stays within capacity, and the
    /// insertion counters move by one (the eviction counter exactly when
    /// the cold tier was full).
    pub open spec fn store_post(
        pre: SSRCache,
        post: SSRCache,
        fp: u64,
        url: Seq<char>,
        html: Seq<char>,
    ) -> bool {
        &&& post.cold_state().spec_capacity() == pre.cold_state().spec_capacity()
        &&& post.cold_view().contains_key(fp)
        &&& post.cold_view()[fp].0 == html
        &&& post.cold_view()[fp].1 == url
        &&& post.cold_view().dom().len() <= post.cold_state().spec_capacity()
        &&& post.hot().contains_fp(fp)
        &&& post.hot().value_of(fp) == html
        &&& post.m().cold_insertions == bump(pre.m().cold_insertions)
        &&& post.m().hot_insertions == bump(pre.m().hot_insertions)
        &&& post.m().lookups == pre.m().lookups
        &&& post.m().hot_hits == pre.m().hot_hits
        &&& post.m().cold_hits == pre.m().cold_hits
        &&& post.m().misses == pre.m().misses
        &&& post.m().promotions == pre.m().promotions
        &&& post.m().renders == pre.m().renders
        &&& post.m().render_errors == pre.m().render_errors
        &&& pre.cold_state().counter() < u64::MAX && pre.cold_view().dom().len()
            < pre.cold_state().spec_capacity() ==> post.m().cold_evictions
            == pre.m().cold_evictions && post.cold_view().dom() == pre.cold_view().dom().insert(fp)
        &&& pre.cold_state().counter() < u64::MAX && pre.cold_view().dom().len()
            >= pre.cold_state().spec_capacity() ==> post.m().cold_evictions == bump(
            pre.m().cold_evictions,
        )
    }

    /// Insert rendered HTML under its URL, into both tiers.
    pub fn insert(&mut self, url: &str, html: Arc<String>)
        requires
            old(self).wf(),
        ensures
            final(self).wf(),
            Self::store_post(
                *old(self),
                *final(self),
                url_fingerprint(url.spec_bytes()),
                url@,
                html@,
            ),
    {
        let url_hash = hash_url(url);
        self.store_fp(url_hash, url, html)
    }

    /// Insert rendered HTML under a versioned key.
    pub fn insert_versioned(&mut self, url: &str, html: Arc<String>, version: u64)
        requires
            old(self).wf(),
        ensures
            final(self).wf(),
            Self::store_post(
                *old(self),
                *final(self),
                versioned_fp(url@, version),
                url@ + "@v"@ + spec_hex_str(version),
                html@,
            ),
    {
        let key = versioned_key(url, version);
        let url_hash = hash_url(key.as_str());
        self.store_fp(url_hash, key.as_str(), html)
    }

    fn store_fp(&mut self, url_hash: u64, url: &str, html: Arc<String>)
        requires
            old(self).wf(),
        ensures
            final(self).wf(),
            Self::store_post(*old(self), *final(self), url_hash, url@, html@),
    {
        let evicted = self.cold.insert(url_hash, url, arc_clone(&html));
        self.metrics.cold_insertions = bump1(self.metrics.cold_insertions);
        if evicted > 0 {
            self.metrics.cold_evictions = bump1(self.metrics.cold_evictions);
        }
        self.hot.insert(url_hash, html);
        self.metrics.hot_insertions = bump1(self.metrics.hot_insertions);
    }

    /// Record a completed render and how long it took.
    pub fn note_render(&mut self, elapsed_ns: u64)
        ensures
            final(self).m().renders == bump(old(self).m().renders),
            final(self).m().last_render_ns == elapsed_ns,
            final(self).hot() == old(self).hot(),
            final(self).cold_state() == old(self).cold_state(),
            final(self).m().lookups == old(self).m().lookups,
            final(self).m().hot_hits == old(self).m().hot_hits,
            final(self).m().cold_hits == old(self).m().cold_hits,
            final(self).m().misses == old(self).m().misses,
            final(self).m().promotions == old(self).m().promotions,
            final(self).m().render_errors == old(self).m().render_errors,
            final(self).m().cold_insertions == old(self).m().cold_insertions,
            final(self).m().cold_evictions == old(self).m().cold_evictions,
            final(self).m().hot_insertions == old(self).m().hot_insertions,
    {
        self.metrics.renders = bump1(self.metrics.renders);
        self.metrics.last_render_ns = elapsed_ns;
    }

    /// Record a failed render.
    pub fn note_render_error(&mut self)
        ensures
            final(self).m().render_errors == bump(old(self).m().render_errors),
            final(self).hot() == old(self).hot(),
            final(self).cold_state() == old(self).cold_state(),
            final(self).m().renders == old(self).m().renders,
            final(self).m().lookups == old(self).m().lookups,
            final(self).m().hot_hits == old(self).m().hot_hits,
            final(self).m().cold_hits == old(self).m().cold_hits,
            final(self).m().misses == old(self).m().misses,
            final(self).m().promotions == old(self).m().promotions,
            final(self).m().cold_insertions == old(self).m().cold_insertions,
            final(self).m().cold_evictions == old(self).m().cold_evictions,
            final(self).m().hot_insertions == old(self).m().hot_insertions,
            final(self).m().last_render_ns == old(self).m().last_render_ns,
    {
        self.metrics.render_errors = bump1(self.metrics.render_errors);
    }

    /// Drop every cold-tier entry. The hot ring ages out on its own as new
    /// renders displace its eight slots; versioned keys make stale ring
    /// entries unreachable after a version change.
    pub fn clear(&mut self)
        requires
            old(self).wf(),
        ensures
            final(self).wf(),
            final(self).cold_view() == crate::cold::empty_contents(),
            final(self).hot() == old(self).hot(),
            final(self).m() == old(self).m(),
    {
        self.cold.clear();
    }

    /// Current number of entries in the cold tier.
    pub fn cold_cache_size(&self) -> (r: usize)
        ensures
            r == self.cold_view().dom().len(),
    {
        self.cold.len()
    }

    /// A snapshot of the counters, together with the cold tier's size and
    /// capacity.
    pub fn metrics(&self) -> (r: SSRCacheMetricsSnapshot)
        ensures
            r.lookups == self.m().lookups,
            r.hot_hits == self.m().hot_hits,
            r.cold_hits == self.m().cold_hits,
            r.misses == self.m().misses,
            r.promotions == self.m().promotions,
            r.renders == self.m().renders,
            r.render_errors == self.m().render_errors,
            r.cold_insertions == self.m().cold_insertions,
            r.cold_evictions == self.m().cold_evictions,
            r.hot_insertions == self.m().hot_insertions,
            r.last_render_ns == self.m().last_render_ns,
            r.cold_cache_size == self.cold_view().dom().len(),
            r.cold_cache_capacity == self.cold_state().spec_capacity(),
            Self::metrics_consistent(self.m()) ==> (r.lookups < u64::MAX ==> r.lookups
                == r.hot_hits + r.cold_hits + r.misses),
    {
        SSRCacheMetricsSnapshot {
            lookups: self.metrics.lookups,
            hot_hits: self.metrics.hot_hits,
            cold_hits: self.metrics.cold_hits,
            misses: self.metrics.misses,
            promotions: self.metrics.promotions,
            renders: self.metrics.renders,
            render_errors: self.metrics.render_errors,
            cold_insertions: self.metrics.cold_insertions,
            cold_evictions: self.metrics.cold_evictions,
            hot_insertions: self.metrics.hot_insertions,
            last_render_ns: self.metrics.last_render_ns,
            cold_cache_size: self.cold.len(),
            cold_cache_capacity: self.cold.capacity(),
        }
    }
}

} // verus!

