//! Thread-confined "hot" cache: the tier a thread consults before touching
//! shared state.
//!
//! Two tiers inside one value:
//! - an "ultra-hot" ring of up to 8 entries, scanned linearly, replaced
//!   round-robin;
//! - a bounded hash map of up to 128 entries with an insertion-order list
//!   used as an approximate LRU.
//!
//! A value of this type belongs to exactly one thread; nothing here is
//! shared. Entries carry their creation time; with a TTL configured, an
//! expired entry reads as a miss.

use vstd::prelude::*;
use std::collections::HashMap;
use std::sync::Arc;
use crate::sys::{arc_clone, wall_clock_now_ns};

verus! {

broadcast use vstd::std_specs::hash::group_hash_axioms;

/// Entries in the ultra-hot ring (fits in two CPU cache lines).
pub const ULTRA_HOT_SIZE: usize = 8;

/// Capacity of the hot map tier.
pub const HOT_MAP_CAPACITY: usize = 128;

/// Nanoseconds in one second.
pub const NANOS_PER_SEC: u64 = 1_000_000_000;

/// Multiply whole seconds into nanoseconds, saturating at `u64::MAX`
/// (a TTL that long never expires within a `u64` clock anyway).
pub open spec fn secs_to_ns(secs: u64) -> u64 {
    if secs * (NANOS_PER_SEC as int) <= u64::MAX {
        (secs * (NANOS_PER_SEC as int)) as u64
    } else {
        u64::MAX
    }
}

/// The ring index after one round-robin step.
pub open spec fn advance_slot(i: usize) -> usize {
    if i + 1 == ULTRA_HOT_SIZE {
        0
    } else {
        (i + 1) as usize
    }
}

/// One cached render: the URL fingerprint it was stored under, the shared
/// HTML blob, and the creation timestamp in nanoseconds.
pub struct HotEntry {
    pub url_hash: u64,
    pub html: Arc<String>,
    pub created_at: u64,
}

/// The per-thread two-tier hot cache.
pub struct HotCache {
    ultra_hot: Vec<Option<HotEntry>>,
    ultra_hot_next: usize,
    hot_map: HashMap<u64, HotEntry>,
    access_order: Vec<u64>,
    ttl: Option<u64>,
}

impl HotCache {
    /// The ultra-hot ring as a sequence of slots.
    pub closed spec fn ultra(self) -> Seq<Option<HotEntry>> {
        self.ultra_hot@
    }

    /// The hot-map tier as a mathematical map.
    pub closed spec fn map_view(self) -> Map<u64, HotEntry> {
        self.hot_map@
    }

    /// The insertion order of the hot-map tier, oldest first.
    pub closed spec fn order(self) -> Seq<u64> {
        self.access_order@
    }

    /// The configured TTL in nanoseconds, `None` for no expiry.
    pub closed spec fn ttl_ns(self) -> Option<u64> {
        self.ttl
    }

    /// The ring slot the next insertion writes to.
    pub closed spec fn next_slot(self) -> usize {
        self.ultra_hot_next
    }

    /// Whether some ultra-hot slot holds this fingerprint.
    pub open spec fn in_ultra(self, fp: u64) -> bool {
        exists|i: int|
            0 <= i < self.ultra().len() && ((#[trigger] self.ultra()[i]) matches Some(e)
                && e.url_hash == fp)
    }

    /// The ultra-hot entry for a fingerprint (unique, by well-formedness).
    pub open spec fn ultra_entry(self, fp: u64) -> HotEntry {
        let i = choose|i: int|
            0 <= i < self.ultra().len() && ((#[trigger] self.ultra()[i]) matches Some(e)
                && e.url_hash == fp);
        self.ultra()[i]->Some_0
    }

    /// The ring slot holding a fingerprint (unique, by well-formedness).
    pub open spec fn ultra_slot_of(self, fp: u64) -> int {
        choose|i: int|
            0 <= i < self.ultra().len() && ((#[trigger] self.ultra()[i]) matches Some(e)
                && e.url_hash == fp)
    }

    /// The ring slot an insert of this fingerprint writes: the slot already
    /// holding it if there is one, else the round-robin slot.
    pub open spec fn write_slot(self, fp: u64) -> int {
        if self.in_ultra(fp) {
            self.ultra_slot_of(fp)
        } else {
            self.next_slot() as int
        }
    }

    /// Whether either tier holds this fingerprint. The ultra-hot ring
    /// shadows the hot map.
    pub open spec fn contains_fp(self, fp: u64) -> bool {
        self.in_ultra(fp) || self.map_view().contains_key(fp)
    }

    /// The entry a lookup of this fingerprint reads: ultra-hot first.
    pub open spec fn entry_of(self, fp: u64) -> HotEntry {
        if self.in_ultra(fp) {
            self.ultra_entry(fp)
        } else {
            self.map_view()[fp]
        }
    }

    /// The HTML a lookup of this fingerprint returns.
    pub open spec fn value_of(self, fp: u64) -> Seq<char> {
        self.entry_of(fp).html@
    }

    /// Whether an entry has outlived the TTL at clock reading `now`.
    pub open spec fn expired_at(self, e: HotEntry, now: u64) -> bool {
        self.ttl_ns() matches Some(t) && now > e.created_at && now - e.created_at > t
    }

    /// Number of occupied ultra-hot slots.
    pub open spec fn ultra_count(s: Seq<Option<HotEntry>>) -> nat
        decreases s.len(),
    {
        if s.len() == 0 {
            0
        } else {
            Self::ultra_count(s.drop_last()) + if s.last() is Some {
                1nat
            } else {
                0nat
            }
        }
    }

    /// Total entries over both tiers.
    pub open spec fn spec_len(self) -> nat {
        Self::ultra_count(self.ultra()) + self.map_view().dom().len()
    }

    /// Well-formedness: the ring has exactly 8 slots with pairwise distinct
    /// fingerprints, the map holds at most 128 entries keyed consistently,
    /// and the order list enumerates exactly the map's keys, oldest first.
    pub open spec fn wf(self) -> bool {
        &&& self.ultra().len() == ULTRA_HOT_SIZE
        &&& self.next_slot() < ULTRA_HOT_SIZE
        &&& self.map_view().dom().finite()
        &&& self.map_view().dom().len() <= HOT_MAP_CAPACITY
        &&& self.order().no_duplicates()
        &&& self.order().len() == self.map_view().dom().len()
        &&& forall|k: u64| self.map_view().contains_key(k) <==> self.order().contains(k)
        &&& forall|k: u64|
            self.map_view().contains_key(k) ==> (#[trigger] self.map_view()[k]).url_hash == k
        &&& forall|i: int, j: int|
            0 <= i < j < self.ultra().len() && (#[trigger] self.ultra()[i]) is Some && (
            #[trigger] self.ultra()[j]) is Some ==> self.ultra()[i]->Some_0.url_hash
                != self.ultra()[j]->Some_0.url_hash
    }

    proof fn lemma_ultra_count_bound(s: Seq<Option<HotEntry>>)
        ensures
            Self::ultra_count(s) <= s.len(),
        decreases s.len(),
    {
        if s.len() > 0 {
            Self::lemma_ultra_count_bound(s.drop_last());
        }
    }

    proof fn lemma_ultra_count_all_none(s: Seq<Option<HotEntry>>)
        requires
            forall|i: int| 0 <= i < s.len() ==> (#[trigger] s[i]) is None,
        ensures
            Self::ultra_count(s) == 0,
        decreases s.len(),
    {
        if s.len() > 0 {
            Self::lemma_ultra_count_all_none(s.drop_last());
        }
    }

    /// Both tiers together never exceed 8 + 128 entries.
    pub proof fn lemma_len_bound(self)
        requires
            self.wf(),
        ensures
            self.spec_len() <= ULTRA_HOT_SIZE + HOT_MAP_CAPACITY,
    {
        Self::lemma_ultra_count_bound(self.ultra());
    }

    /// Create a new empty hot cache with no TTL.
    pub fn new() -> (r: Self)
        ensures
            r.wf(),
            r.ttl_ns() is None,
            forall|fp: u64| !r.contains_fp(fp),
            r.spec_len() == 0,
    {
        Self::make(None)
    }

    /// Create a hot cache whose entries expire `ttl_secs` seconds after
    /// insertion; 0 means no expiry.
    pub fn with_ttl(ttl_secs: u64) -> (r: Self)
        ensures
            r.wf(),
            r.ttl_ns() == if ttl_secs == 0 {
                Option::<u64>::None
            } else {
                Option::<u64>::Some(secs_to_ns(ttl_secs))
            },
            forall|fp: u64| !r.contains_fp(fp),
            r.spec_len() == 0,
    {
        let ttl = if ttl_secs > 0 {
            match ttl_secs.checked_mul(NANOS_PER_SEC) {
                Some(ns) => Some(ns),
                None => Some(u64::MAX),
            }
        } else {
            None
        };
        Self::make(ttl)
    }

    fn make(ttl: Option<u64>) -> (r: Self)
        ensures
            r.wf(),
            r.ttl_ns() == ttl,
            forall|fp: u64| !r.contains_fp(fp),
            r.spec_len() == 0,
    {
        let mut ultra_hot: Vec<Option<HotEntry>> = Vec::with_capacity(ULTRA_HOT_SIZE);
        for _i in 0..ULTRA_HOT_SIZE
            invariant
                ultra_hot@.len() == _i,
                forall|j: int| 0 <= j < ultra_hot@.len() ==> (#[trigger] ultra_hot@[j]) is None,
        {
            ultra_hot.push(None);
        }
        let r = HotCache {
            ultra_hot,
            ultra_hot_next: 0,
            hot_map: HashMap::with_capacity(HOT_MAP_CAPACITY),
            access_order: Vec::with_capacity(HOT_MAP_CAPACITY),
            ttl,
        };
        proof {
            Self::lemma_ultra_count_all_none(r.ultra());
            assert(forall|fp: u64| !r.in_ultra(fp));
        }
        r
    }

    /// Whether `e` has expired by the clock reading `now`.
    #[inline(always)]
    fn is_expired(&self, entry: &HotEntry, now: u64) -> (r: bool)
        ensures
            r == self.expired_at(*entry, now),
    {
        match self.ttl {
            Some(t) => now > entry.created_at && now - entry.created_at > t,
            None => false,
        }
    }

    /// Find the ultra-hot slot holding `fp`, if any.
    fn find_ultra(&self, url_hash: u64) -> (r: Option<usize>)
        requires
            self.wf(),
        ensures
            match r {
                Some(i) => i < self.ultra().len() && (self.ultra()[i as int] matches Some(e)
                    && e.url_hash == url_hash && self.in_ultra(url_hash)),
                None => !self.in_ultra(url_hash),
            },
    {
        let mut i: usize = 0;
        while i < ULTRA_HOT_SIZE
            invariant
                self.wf(),
                i <= ULTRA_HOT_SIZE,
                forall|j: int|
                    0 <= j < i ==> !((#[trigger] self.ultra()[j]) matches Some(e) && e.url_hash
                        == url_hash),
            decreases ULTRA_HOT_SIZE - i,
        {
            match &self.ultra_hot[i] {
                Some(e) => {
                    if e.url_hash == url_hash {
                        return Some(i);
                    }
                },
                None => {},
            }
            i = i + 1;
        }
        None
    }

    /// The entry read for `fp` is the one in the slot `find_ultra` returns.
    proof fn lemma_ultra_entry_at(self, url_hash: u64, i: int)
        requires
            self.wf(),
            0 <= i < self.ultra().len(),
            self.ultra()[i] matches Some(e) && e.url_hash == url_hash,
        ensures
            self.ultra_entry(url_hash) == self.ultra()[i]->Some_0,
    {
        let j = choose|j: int|
            0 <= j < self.ultra().len() && ((#[trigger] self.ultra()[j]) matches Some(e)
                && e.url_hash == url_hash);
        if i != j {
            assert(false);
        }
    }

    /// The slot read for `fp` is the one `find_ultra` returns.
    proof fn lemma_ultra_slot_at(self, url_hash: u64, i: int)
        requires
            self.wf(),
            0 <= i < self.ultra().len(),
            self.ultra()[i] matches Some(e) && e.url_hash == url_hash,
        ensures
            self.ultra_slot_of(url_hash) == i,
    {
        let j = choose|j: int|
            0 <= j < self.ultra().len() && ((#[trigger] self.ultra()[j]) matches Some(e)
                && e.url_hash == url_hash);
        if i != j {
            assert(false);
        }
    }

    /// Look up HTML by fingerprint at an explicit clock reading, without
    /// promotion or any other mutation: a hit returns exactly the stored
    /// blob, a miss means the fingerprint is absent or expired.
    pub fn peek_at(&self, url_hash: u64, now: u64) -> (r: Option<Arc<String>>)
        requires
            self.wf(),
        ensures
            match r {
                Some(h) => self.contains_fp(url_hash) && h@ == self.value_of(url_hash)
                    && !self.expired_at(self.entry_of(url_hash), now),
                None => !self.contains_fp(url_hash) || self.expired_at(
                    self.entry_of(url_hash),
                    now,
                ),
            },
    {
        match self.find_ultra(url_hash) {
            Some(i) => {
                proof {
                    self.lemma_ultra_entry_at(url_hash, i as int);
                }
                match &self.ultra_hot[i] {
                    Some(e) => {
                        if self.is_expired(e, now) {
                            None
                        } else {
                            Some(arc_clone(&e.html))
                        }
                    },
                    None => {
                        proof {
                            assert(false);
                        }
                        None
                    },
                }
            },
            None => {
                match self.hot_map.get(&url_hash) {
                    Some(e) => {
                        if self.is_expired(e, now) {
                            None
                        } else {
                            Some(arc_clone(&e.html))
                        }
                    },
                    None => None,
                }
            },
        }
    }

    /// Look up HTML by fingerprint, without promotion, against the current
    /// clock. A hit returns exactly the stored blob; with no TTL, hit and
    /// presence coincide.
    #[inline(always)]
    pub fn peek(&self, url_hash: u64) -> (r: Option<Arc<String>>)
        requires
            self.wf(),
        ensures
            r matches Some(h) ==> self.contains_fp(url_hash) && h@ == self.value_of(url_hash),
            self.ttl_ns() is None ==> (r is Some <==> self.contains_fp(url_hash)),
    {
        let now = wall_clock_now_ns();
        self.peek_at(url_hash, now)
    }

    /// Position of a fingerprint in the insertion-order list.
    fn order_position(&self, k: u64) -> (r: Option<usize>)
        ensures
            match r {
                Some(i) => i < self.order().len() && self.order()[i as int] == k,
                None => !self.order().contains(k),
            },
    {
        let n = self.access_order.len();
        let mut i: usize = 0;
        while i < n
            invariant
                n == self.order().len(),
                i <= n,
                forall|j: int| 0 <= j < i ==> self.order()[j] != k,
            decreases n - i,
        {
            if self.access_order[i] == k {
                return Some(i);
            }
            i = i + 1;
        }
        None
    }


    /// Evict the oldest hot-map entry: the head of the insertion order.
    fn evict_oldest(&mut self)
        requires
            old(self).wf(),
            old(self).order().len() > 0,
        ensures
            final(self).wf(),
            final(self).ultra() == old(self).ultra(),
            final(self).next_slot() == old(self).next_slot(),
            final(self).ttl_ns() == old(self).ttl_ns(),
            final(self).map_view() == old(self).map_view().remove(old(self).order()[0]),
            final(self).order() == old(self).order().remove(0),
    {
        let oldest = self.access_order[0];
        proof {
            assert(old(self).order().contains(old(self).order()[0]));
        }
        self.hot_map.remove(&oldest);
        self.access_order.remove(0);
        proof {
            let oo = old(self).order();
            let no = self.order();
            assert forall|x: u64| no.contains(x) implies oo.contains(x) && x != oldest by {
                let i = choose|i: int| 0 <= i < no.len() && no[i] == x;
                assert(oo[i + 1] == x);
                if x == oldest {
                    assert(oo[i + 1] == oo[0]);
                    assert(false);
                }
            }
            assert forall|x: u64| oo.contains(x) && x != oldest implies no.contains(x) by {
                let i = choose|i: int| 0 <= i < oo.len() && oo[i] == x;
                assert(i != 0);
                assert(no[i - 1] == x);
            }
            assert forall|i: int, j: int| 0 <= i < j < no.len() implies no[i] != no[j] by {
                assert(oo[i + 1] == no[i] && oo[j + 1] == no[j]);
            }
            assert(no.no_duplicates());
            assert(self.map_view() =~= old(self).map_view().remove(oldest));
            assert(self.map_view().dom() =~= old(self).map_view().dom().remove(oldest));
        }
    }

    /// Add a fresh fingerprint to the hot-map tier, at the back of the
    /// insertion order.
    fn push_new(&mut self, entry: HotEntry)
        requires
            old(self).wf(),
            !old(self).map_view().contains_key(entry.url_hash),
            old(self).map_view().dom().len() < HOT_MAP_CAPACITY,
        ensures
            final(self).wf(),
            final(self).ultra() == old(self).ultra(),
            final(self).next_slot() == old(self).next_slot(),
            final(self).ttl_ns() == old(self).ttl_ns(),
            final(self).map_view() == old(self).map_view().insert(entry.url_hash, entry),
            final(self).order() == old(self).order().push(entry.url_hash),
    {
        let k = entry.url_hash;
        self.access_order.push(k);
        self.hot_map.insert(k, entry);
        proof {
            let oo = old(self).order();
            let no = self.order();
            assert forall|x: u64| no.contains(x) implies oo.contains(x) || x == k by {
                let i = choose|i: int| 0 <= i < no.len() && no[i] == x;
                if i < no.len() - 1 {
                    assert(oo[i] == x);
                }
            }
            assert forall|x: u64| oo.contains(x) implies no.contains(x) by {
                let i = choose|i: int| 0 <= i < oo.len() && oo[i] == x;
                assert(no[i] == x);
            }
            assert(no[no.len() - 1] == k);
            assert forall|i: int, j: int| 0 <= i < j < no.len() implies no[i] != no[j] by {
                if j < no.len() - 1 {
                    assert(oo[i] == no[i] && oo[j] == no[j]);
                } else {
                    assert(oo[i] == no[i]);
                    assert(oo.contains(no[i]));
                }
            }
            assert(no.no_duplicates());
            assert(self.map_view().dom() =~= old(self).map_view().dom().insert(k));
        }
    }

    /// Overwrite an existing hot-map entry and move its fingerprint to the
    /// back of the insertion order.
    fn refresh_existing(&mut self, entry: HotEntry)
        requires
            old(self).wf(),
            old(self).map_view().contains_key(entry.url_hash),
        ensures
            final(self).wf(),
            final(self).ultra() == old(self).ultra(),
            final(self).next_slot() == old(self).next_slot(),
            final(self).ttl_ns() == old(self).ttl_ns(),
            final(self).map_view() == old(self).map_view().insert(entry.url_hash, entry),
            final(self).order().len() == old(self).order().len(),
            forall|x: u64| final(self).order().contains(x) <==> old(self).order().contains(x),
    {
        let k = entry.url_hash;
        match self.order_position(k) {
            Some(pos) => {
                self.access_order.remove(pos);
                let ghost oo = old(self).order();
                let ghost mid = self.order();
                proof {
                    assert(mid == oo.remove(pos as int));
                    assert forall|x: u64| mid.contains(x) implies oo.contains(x) && x != k by {
                        let i = choose|i: int| 0 <= i < mid.len() && mid[i] == x;
                        if i < pos {
                            assert(oo[i] == x);
                            if x == k {
                                assert(oo[i] == oo[pos as int]);
                                assert(false);
                            }
                        } else {
                            assert(oo[i + 1] == x);
                            if x == k {
                                assert(oo[i + 1] == oo[pos as int]);
                                assert(false);
                            }
                        }
                    }
                    assert forall|x: u64| oo.contains(x) && x != k implies mid.contains(x) by {
                        let i = choose|i: int| 0 <= i < oo.len() && oo[i] == x;
                        if i < pos {
                            assert(mid[i] == x);
                        } else {
                            assert(i != pos);
                            assert(mid[i - 1] == x);
                        }
                    }
                    assert forall|i: int, j: int| 0 <= i < j < mid.len() implies mid[i] != mid[j]
                        by {
                        let oi = if i < pos {
                            i
                        } else {
                            i + 1
                        };
                        let oj = if j < pos {
                            j
                        } else {
                            j + 1
                        };
                        assert(oo[oi] == mid[i] && oo[oj] == mid[j]);
                    }
                    assert(mid.no_duplicates());
                }
                self.access_order.push(k);
                self.hot_map.insert(k, entry);
                proof {
                    let no = self.order();
                    assert(no == mid.push(k));
                    assert forall|x: u64| no.contains(x) implies mid.contains(x) || x == k by {
                        let i = choose|i: int| 0 <= i < no.len() && no[i] == x;
                        if i < no.len() - 1 {
                            assert(mid[i] == x);
                        }
                    }
                    assert forall|x: u64| mid.contains(x) || x == k implies no.contains(x) by {
                        if x == k {
                            assert(no[no.len() - 1] == x);
                        } else {
                            let i = choose|i: int| 0 <= i < mid.len() && mid[i] == x;
                            assert(no[i] == x);
                        }
                    }
                    assert forall|i: int, j: int| 0 <= i < j < no.len() implies no[i] != no[j] by {
                        if j < no.len() - 1 {
                            assert(mid[i] == no[i] && mid[j] == no[j]);
                        } else {
                            assert(mid[i] == no[i]);
                            assert(mid.contains(no[i]));
                        }
                    }
                    assert(no.no_duplicates());
                    assert(self.map_view().dom() =~= old(self).map_view().dom());
                }
            },
            None => {
                proof {
                    assert(false);
                }
            },
        }
    }

    /// Insert a displaced entry into the hot-map tier, under its own
    /// fingerprint. A fingerprint already present is overwritten; otherwise,
    /// if the tier is full, the oldest fingerprint (the head of the
    /// insertion order) is evicted first.
    fn insert_to_hot_map(&mut self, entry: HotEntry)
        requires
            old(self).wf(),
        ensures
            final(self).wf(),
            final(self).ultra() == old(self).ultra(),
            final(self).next_slot() == old(self).next_slot(),
            final(self).ttl_ns() == old(self).ttl_ns(),
            final(self).map_view().contains_key(entry.url_hash),
            final(self).map_view()[entry.url_hash] == entry,
            forall|k: u64|
                k != entry.url_hash && #[trigger] final(self).map_view().contains_key(k)
                    ==> old(self).map_view().contains_key(k)
                    && final(self).map_view()[k] == old(self).map_view()[k],
            forall|k: u64|
                k != entry.url_hash && #[trigger] old(self).map_view().contains_key(k)
                    ==> final(self).map_view().contains_key(k)
                    || (old(self).order().len() > 0 && k == old(self).order()[0]),
            old(self).map_view().contains_key(entry.url_hash) || old(self).map_view().dom().len()
                < HOT_MAP_CAPACITY ==> forall|k: u64|
                #[trigger] old(self).map_view().contains_key(k)
                    ==> final(self).map_view().contains_key(k),
    {
        let k = entry.url_hash;
        if self.hot_map.contains_key(&k) {
            self.refresh_existing(entry);
        } else {
            if self.hot_map.len() >= HOT_MAP_CAPACITY {
                self.evict_oldest();
            }
            self.push_new(entry);
        }
    }

    /// Remove a fingerprint from the hot-map tier, returning its entry.
    fn remove_map_entry(&mut self, k: u64) -> (r: HotEntry)
        requires
            old(self).wf(),
            old(self).map_view().contains_key(k),
        ensures
            final(self).wf(),
            final(self).ultra() == old(self).ultra(),
            final(self).next_slot() == old(self).next_slot(),
            final(self).ttl_ns() == old(self).ttl_ns(),
            final(self).map_view() == old(self).map_view().remove(k),
            r == old(self).map_view()[k],
    {
        let entry = match self.hot_map.remove(&k) {
            Some(e) => e,
            None => {
                proof {
                    assert(false);
                }
                unreached()
            },
        };
        match self.order_position(k) {
            Some(pos) => {
                self.access_order.remove(pos);
                proof {
                    let oo = old(self).order();
                    let no = self.order();
                    assert(oo[pos as int] == k);
                    assert forall|x: u64| no.contains(x) implies oo.contains(x) && x != k by {
                        let i = choose|i: int| 0 <= i < no.len() && no[i] == x;
                        if i < pos {
                            assert(oo[i] == x);
                            if x == k {
                                assert(oo[i] == oo[pos as int]);
                                assert(false);
                            }
                        } else {
                            assert(oo[i + 1] == x);
                            if x == k {
                                assert(oo[i + 1] == oo[pos as int]);
                                assert(false);
                            }
                        }
                    }
                    assert forall|x: u64| oo.contains(x) && x != k implies no.contains(x) by {
                        let i = choose|i: int| 0 <= i < oo.len() && oo[i] == x;
                        if i < pos {
                            assert(no[i] == x);
                        } else {
                            assert(i != pos);
                            assert(no[i - 1] == x);
                        }
                    }
                    assert forall|i: int, j: int| 0 <= i < j < no.len() implies no[i] != no[j] by {
                        let oi = if i < pos {
                            i
                        } else {
                            i + 1
                        };
                        let oj = if j < pos {
                            j
                        } else {
                            j + 1
                        };
                        assert(oo[oi] == no[i] && oo[oj] == no[j]);
                    }
                    assert(no.no_duplicates());
                    assert(self.map_view().dom() =~= old(self).map_view().dom().remove(k));
                }
            },
            None => {
                proof {
                    assert(false);
                }
            },
        }
        entry
    }

    /// Insert an entry at an explicit clock reading. The new entry lands in
    /// the ultra-hot ring: in place if the fingerprint is already there,
    /// else in the next round-robin slot, whose displaced occupant moves to
    /// the hot-map tier (evicting that tier's oldest fingerprint if full).
    pub fn insert_at(&mut self, url_hash: u64, html: Arc<String>, now: u64)
        requires
            old(self).wf(),
        ensures
            final(self).wf(),
            final(self).ttl_ns() == old(self).ttl_ns(),
            final(self).contains_fp(url_hash),
            final(self).value_of(url_hash) == html@,
            final(self).entry_of(url_hash).created_at == now,
            forall|k: u64|
                k != url_hash && #[trigger] final(self).contains_fp(k) ==> old(self).contains_fp(k)
                    && final(self).value_of(k) == old(self).value_of(k),
            forall|k: u64|
                k != url_hash && #[trigger] old(self).contains_fp(k) ==> final(self).contains_fp(k)
                    || (old(self).order().len() > 0 && k == old(self).order()[0]),
            old(self).map_view().dom().len() < HOT_MAP_CAPACITY ==> forall|k: u64|
                k != url_hash && #[trigger] old(self).contains_fp(k) ==> final(self).contains_fp(
                    k,
                ),
            final(self).ultra() == old(self).ultra().update(
                old(self).write_slot(url_hash),
                Some((HotEntry { url_hash: url_hash, html: html, created_at: now })),
            ),
            final(self).next_slot() == (if old(self).in_ultra(url_hash) {
                old(self).next_slot()
            } else {
                advance_slot(old(self).next_slot())
            }),
            old(self).in_ultra(url_hash) ==> final(self).map_view() == old(self).map_view()
                && final(self).order() == old(self).order(),
    {
        let entry = HotEntry { url_hash, html, created_at: now };
        match self.find_ultra(url_hash) {
            Some(i) => {
                self.ultra_hot.remove(i);
                self.ultra_hot.insert(i, Some(entry));
                proof {
                    assert(self.ultra() =~= old(self).ultra().update(i as int, Some(entry)));
                    old(self).lemma_ultra_slot_at(url_hash, i as int);
                    self.lemma_ultra_entry_at(url_hash, i as int);
                    assert forall|k: u64|
                        k != url_hash && #[trigger] self.contains_fp(k) implies old(self).contains_fp(k) && self.value_of(k) == old(self).value_of(k) by {
                        if self.in_ultra(k) {
                            let j = choose|j: int|
                                0 <= j < self.ultra().len() && ((#[trigger] self.ultra()[j])
                                    matches Some(e) && e.url_hash == k);
                            assert(j != i);
                            assert(old(self).ultra()[j] == self.ultra()[j]);
                            self.lemma_ultra_entry_at(k, j);
                            old(self).lemma_ultra_entry_at(k, j);
                        } else {
                            assert(!old(self).in_ultra(k)) by {
                                if old(self).in_ultra(k) {
                                    let j = choose|j: int|
                                        0 <= j < old(self).ultra().len() && ((#[trigger] old(self).ultra()[j]) matches Some(e) && e.url_hash == k);
                                    assert(j != i);
                                    assert(self.ultra()[j] == old(self).ultra()[j]);
                                }
                            }
                        }
                    }
                    assert forall|k: u64|
                        k != url_hash && #[trigger] old(self).contains_fp(k) implies self
                        .contains_fp(k) by {
                        if old(self).in_ultra(k) {
                            let j = choose|j: int|
                                0 <= j < old(self).ultra().len() && ((#[trigger] old(self).ultra()[j]) matches Some(e) && e.url_hash == k);
                            assert(j != i);
                            assert(self.ultra()[j] == old(self).ultra()[j]);
                        }
                    }
                }
            },
            None => {
                let next = self.ultra_hot_next;
                let displaced = self.ultra_hot.remove(next);
                self.ultra_hot.insert(next, Some(entry));
                self.ultra_hot_next = if next + 1 == ULTRA_HOT_SIZE {
                    0
                } else {
                    next + 1
                };
                let ghost mid = *self;
                proof {
                    assert(mid.ultra() =~= old(self).ultra().update(
                        next as int,
                        Some(entry),
                    ));
                    assert(mid.wf());
                }
                match displaced {
                    Some(d) => {
                        proof {
                            assert(old(self).ultra()[next as int] matches Some(e) && e == d);
                            assert(d.url_hash != url_hash);
                            old(self).lemma_ultra_entry_at(d.url_hash, next as int);
                        }
                        self.insert_to_hot_map(d);
                    },
                    None => {},
                }
                proof {
                    assert(self.ultra() == mid.ultra());
                    self.lemma_ultra_entry_at(url_hash, next as int);
                    assert(self.contains_fp(url_hash) && self.value_of(url_hash) == entry.html@);
                    let ghost dkey = if old(self).ultra()[next as int] is Some {
                        old(self).ultra()[next as int]->Some_0.url_hash
                    } else {
                        url_hash
                    };
                    assert forall|k: u64|
                        k != url_hash && #[trigger] self.contains_fp(k) implies old(self).contains_fp(k) && self.value_of(k) == old(self).value_of(k) by {
                        if self.in_ultra(k) {
                            let j = choose|j: int|
                                0 <= j < self.ultra().len() && ((#[trigger] self.ultra()[j])
                                    matches Some(e) && e.url_hash == k);
                            assert(j != next);
                            assert(old(self).ultra()[j] == self.ultra()[j]);
                            self.lemma_ultra_entry_at(k, j);
                            old(self).lemma_ultra_entry_at(k, j);
                        } else {
                            assert(self.map_view().contains_key(k));
                            if k == dkey && old(self).ultra()[next as int] is Some {
                                let d = old(self).ultra()[next as int]->Some_0;
                                old(self).lemma_ultra_entry_at(k, next as int);
                                assert(self.map_view()[k] == d);
                                assert(old(self).value_of(k) == d.html@);
                            } else {
                                assert(!old(self).in_ultra(k)) by {
                                    if old(self).in_ultra(k) {
                                        let j = choose|j: int|
                                            0 <= j < old(self).ultra().len() && ((#[trigger] old(self).ultra()[j]) matches Some(e) && e.url_hash == k);
                                        if j != next {
                                            assert(self.ultra()[j] == old(self).ultra()[j]);
                                        }
                                    }
                                }
                                assert(old(self).map_view().contains_key(k));
                            }
                        }
                    }
                    assert forall|k: u64|
                        k != url_hash && #[trigger] old(self).contains_fp(k) implies self
                        .contains_fp(k) || (old(self).order().len() > 0 && k == old(self).order()[0]) by {
                        if old(self).in_ultra(k) {
                            let j = choose|j: int|
                                0 <= j < old(self).ultra().len() && ((#[trigger] old(self).ultra()[j]) matches Some(e) && e.url_hash == k);
                            if j == next {
                                assert(k == dkey);
                                assert(self.map_view().contains_key(k));
                            } else {
                                assert(self.ultra()[j] == old(self).ultra()[j]);
                            }
                        }
                    }
                    if old(self).map_view().dom().len() < HOT_MAP_CAPACITY {
                        assert forall|k: u64|
                            k != url_hash && #[trigger] old(self).contains_fp(k) implies self
                            .contains_fp(k) by {
                            if old(self).in_ultra(k) {
                                let j = choose|j: int|
                                    0 <= j < old(self).ultra().len() && ((#[trigger] old(self).ultra()[j]) matches Some(e) && e.url_hash == k);
                                if j == next {
                                    assert(k == dkey);
                                    assert(self.map_view().contains_key(k));
                                } else {
                                    assert(self.ultra()[j] == old(self).ultra()[j]);
                                }
                            } else {
                                assert(old(self).map_view().contains_key(k));
                                assert(self.map_view().contains_key(k));
                            }
                        }
                    }
                }
            },
        }
    }

    /// Insert a render result under its fingerprint, stamped with the
    /// current clock.
    #[inline(always)]
    pub fn insert(&mut self, url_hash: u64, html: Arc<String>)
        requires
            old(self).wf(),
        ensures
            final(self).wf(),
            final(self).ttl_ns() == old(self).ttl_ns(),
            final(self).contains_fp(url_hash),
            final(self).value_of(url_hash) == html@,
            forall|k: u64|
                k != url_hash && #[trigger] final(self).contains_fp(k) ==> old(self).contains_fp(k)
                    && final(self).value_of(k) == old(self).value_of(k),
            forall|k: u64|
                k != url_hash && #[trigger] old(self).contains_fp(k) ==> final(self).contains_fp(k)
                    || (old(self).order().len() > 0 && k == old(self).order()[0]),
            old(self).map_view().dom().len() < HOT_MAP_CAPACITY ==> forall|k: u64|
                k != url_hash && #[trigger] old(self).contains_fp(k) ==> final(self).contains_fp(
                    k,
                ),
            final(self).ultra()[old(self).write_slot(url_hash)] matches Some(e) && e.url_hash
                == url_hash && e.html == html,
            forall|j: int|
                0 <= j < old(self).ultra().len() && j != old(self).write_slot(url_hash)
                    ==> final(self).ultra()[j] == old(self).ultra()[j],
            final(self).next_slot() == (if old(self).in_ultra(url_hash) {
                old(self).next_slot()
            } else {
                advance_slot(old(self).next_slot())
            }),
            old(self).in_ultra(url_hash) ==> final(self).map_view() == old(self).map_view()
                && final(self).order() == old(self).order(),
    {
        let now = wall_clock_now_ns();
        self.insert_at(url_hash, html, now);
    }

    /// Look up HTML by fingerprint at an explicit clock reading. After any
    /// hit the entry sits in the ultra-hot ring: a hot-map hit is promoted
    /// there. An expired hot-map entry is deleted opportunistically. No
    /// fingerprint other than the one looked up is ever lost, and no stored
    /// blob changes.
    pub fn get_at(&mut self, url_hash: u64, now: u64) -> (r: Option<Arc<String>>)
        requires
            old(self).wf(),
        ensures
            final(self).wf(),
            final(self).ttl_ns() == old(self).ttl_ns(),
            match r {
                Some(h) => old(self).contains_fp(url_hash) && h@ == old(self).value_of(url_hash)
                    && !old(self).expired_at(old(self).entry_of(url_hash), now) && final(self).contains_fp(url_hash) && final(self).value_of(url_hash) == h@ && final(self).in_ultra(
                    url_hash,
                ),
                None => !old(self).contains_fp(url_hash) || old(self).expired_at(
                    old(self).entry_of(url_hash),
                    now,
                ),
            },
            forall|k: u64|
                k != url_hash ==> ((#[trigger] final(self).contains_fp(k)) <==> old(self).contains_fp(k)),
            forall|k: u64|
                k != url_hash && #[trigger] final(self).contains_fp(k) ==> final(self).value_of(k)
                    == old(self).value_of(k),
    {
        match self.find_ultra(url_hash) {
            Some(i) => {
                proof {
                    self.lemma_ultra_entry_at(url_hash, i as int);
                }
                match &self.ultra_hot[i] {
                    Some(e) => {
                        if self.is_expired(e, now) {
                            None
                        } else {
                            Some(arc_clone(&e.html))
                        }
                    },
                    None => {
                        proof {
                            assert(false);
                        }
                        None
                    },
                }
            },
            None => {
                if !self.hot_map.contains_key(&url_hash) {
                    return None;
                }
                let expired = match self.hot_map.get(&url_hash) {
                    Some(e) => self.is_expired(e, now),
                    None => {
                        proof {
                            assert(false);
                        }
                        false
                    },
                };
                let entry = self.remove_map_entry(url_hash);
                let ghost mid = *self;
                if expired {
                    proof {
                        assert forall|k: u64|
                            k != url_hash implies ((#[trigger] self.contains_fp(k)) <==> old(self).contains_fp(k)) by {}
                    }
                    return None;
                }
                let html = arc_clone(&entry.html);
                proof {
                    assert(mid.map_view().dom().len() < HOT_MAP_CAPACITY);
                }
                self.insert_at(url_hash, entry.html, now);
                proof {
                    assert forall|k: u64|
                        k != url_hash && #[trigger] old(self).contains_fp(k) implies self
                        .contains_fp(k) by {
                        assert(mid.contains_fp(k));
                    }
                    let ws = mid.write_slot(url_hash);
                    assert(0 <= ws < self.ultra().len());
                    assert(self.ultra()[ws] is Some && self.ultra()[ws]->Some_0.url_hash
                        == url_hash);
                    assert(self.in_ultra(url_hash));
                }
                Some(html)
            },
        }
    }

    /// Look up HTML by fingerprint against the current clock, promoting a
    /// hot-map hit into the ultra-hot ring. A hit returns exactly the
    /// stored blob; with no TTL, hit and presence coincide.
    #[inline(always)]
    pub fn get(&mut self, url_hash: u64) -> (r: Option<Arc<String>>)
        requires
            old(self).wf(),
        ensures
            final(self).wf(),
            final(self).ttl_ns() == old(self).ttl_ns(),
            r matches Some(h) ==> old(self).contains_fp(url_hash) && h@ == old(self).value_of(
                url_hash,
            ) && final(self).contains_fp(url_hash) && final(self).value_of(url_hash) == h@
                && final(self).in_ultra(url_hash),
            old(self).ttl_ns() is None ==> (r is Some <==> old(self).contains_fp(url_hash)),
            forall|k: u64|
                k != url_hash ==> ((#[trigger] final(self).contains_fp(k)) <==> old(self).contains_fp(k)),
            forall|k: u64|
                k != url_hash && #[trigger] final(self).contains_fp(k) ==> final(self).value_of(k)
                    == old(self).value_of(k),
    {
        let now = wall_clock_now_ns();
        self.get_at(url_hash, now)
    }

    /// Total number of cached entries over both tiers.
    pub fn len(&self) -> (r: usize)
        requires
            self.wf(),
        ensures
            r == self.spec_len(),
    {
        let mut count: usize = 0;
        let mut i: usize = 0;
        while i < ULTRA_HOT_SIZE
            invariant
                self.wf(),
                i <= ULTRA_HOT_SIZE,
                count == Self::ultra_count(self.ultra().take(i as int)),
                count <= i,
            decreases ULTRA_HOT_SIZE - i,
        {
            proof {
                assert(self.ultra().take(i + 1).drop_last() =~= self.ultra().take(i as int));
                assert(self.ultra().take(i + 1).last() == self.ultra()[i as int]);
            }
            match &self.ultra_hot[i] {
                Some(_) => {
                    count = count + 1;
                },
                None => {},
            }
            i = i + 1;
        }
        proof {
            assert(self.ultra().take(ULTRA_HOT_SIZE as int) =~= self.ultra());
        }
        count + self.hot_map.len()
    }

    /// Whether the cache holds no entries.
    pub fn is_empty(&self) -> (r: bool)
        requires
            self.wf(),
        ensures
            r == (self.spec_len() == 0),
    {
        self.len() == 0
    }

    /// Drop every entry in both tiers; the TTL setting is kept.
    pub fn clear(&mut self)
        requires
            old(self).wf(),
        ensures
            final(self).wf(),
            final(self).ttl_ns() == old(self).ttl_ns(),
            forall|fp: u64| !final(self).contains_fp(fp),
            final(self).spec_len() == 0,
            final(self).next_slot() == 0,
    {
        let mut i: usize = 0;
        while i < ULTRA_HOT_SIZE
            invariant
                old(self).wf(),
                self.wf(),
                i <= ULTRA_HOT_SIZE,
                self.ultra().len() == ULTRA_HOT_SIZE,
                forall|j: int| 0 <= j < i ==> (#[trigger] self.ultra()[j]) is None,
                self.map_view() == old(self).map_view(),
                self.order() == old(self).order(),
                self.ttl_ns() == old(self).ttl_ns(),
            decreases ULTRA_HOT_SIZE - i,
        {
            self.ultra_hot.remove(i);
            self.ultra_hot.insert(i, None);
            i = i + 1;
        }
        self.ultra_hot_next = 0;
        self.hot_map.clear();
        self.access_order.clear();
        proof {
            Self::lemma_ultra_count_all_none(self.ultra());
            assert(forall|fp: u64| !self.in_ultra(fp));
        }
    }
}

} // verus!

