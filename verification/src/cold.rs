//! Shared "cold" cache: the RAM-resident tier behind every thread's hot
//! tier.
//!
//! Entries live in a sharded concurrent map keyed by URL fingerprint; each
//! carries the URL (kept for prefix deletion), an access stamp drawn from a
//! monotonic counter, and its creation time. When an insert finds the map at
//! capacity it evicts a batch of the least recently stamped entries, guarded
//! so that only one evictor runs at a time. With a TTL configured, an
//! expired entry reads as a miss and is removed on sight.

use vstd::prelude::*;
use vstd::arithmetic::div_mod::{lemma_fundamental_div_mod, lemma_fundamental_div_mod_converse};
use std::sync::Arc;
use dashmap::DashMap;
use crate::sys::{arc_clone, wall_clock_now_ns, str_starts_with};
use crate::hot::{secs_to_ns, NANOS_PER_SEC};

verus! {

/// Shard count of the underlying concurrent map (a power of two, as the map
/// requires; this many shards keep contention low at 8+ threads).
pub const SHARD_COUNT: usize = 128;

/// A cold-tier entry: the shared HTML blob, the URL it was stored under,
/// the logical access stamp used for approximate LRU, and the creation
/// timestamp in nanoseconds.
pub struct ColdEntry {
    pub html: Arc<String>,
    pub url: String,
    pub last_access: u64,
    pub created_at: u64,
}

#[verifier::external_type_specification]
#[verifier::external_body]
#[verifier::reject_recursive_types(K)]
#[verifier::reject_recursive_types(V)]
#[verifier::reject_recursive_types(S)]
pub struct ExDashMap<K, V, S>(DashMap<K, V, S>);

/// What the shared map holds: fingerprint to (html, url, access stamp,
/// creation time), all as plain values.
pub uninterp spec fn cold_contents(m: DashMap<u64, ColdEntry>) -> Map<
    u64,
    (Seq<char>, Seq<char>, u64, u64),
>;

/// An empty contents map.
pub open spec fn empty_contents() -> Map<u64, (Seq<char>, Seq<char>, u64, u64)> {
    Map::empty()
}

/// Whether `p` is a prefix of `s`.
pub open spec fn is_prefix_of(p: Seq<char>, s: Seq<char>) -> bool {
    p.len() <= s.len() && s.subrange(0, p.len() as int) == p
}

/// The image of one entry in the contents map.
pub open spec fn entry_model(e: ColdEntry) -> (Seq<char>, Seq<char>, u64, u64) {
    (e.html@, e.url@, e.last_access, e.created_at)
}

/// Relies on dashmap::DashMap::with_capacity_and_shard_amount: a new, empty
/// map (it panics unless the shard amount is a power of two, and this crate
/// only ever passes its one shard constant).
#[verifier::external_body]
fn dm_new(capacity: usize, shard_amount: usize) -> (m: DashMap<u64, ColdEntry>)
    requires
        shard_amount == SHARD_COUNT,
    ensures
        cold_contents(m) == empty_contents(),
{
    DashMap::with_capacity_and_shard_amount(capacity, shard_amount)
}

/// Relies on dashmap::DashMap::get: returns the entry under the key if it
/// is present, and nothing otherwise.
#[verifier::external_body]
fn dm_get(m: &DashMap<u64, ColdEntry>, key: u64) -> (r: Option<ColdEntry>)
    ensures
        match r {
            Some(e) => cold_contents(*m).contains_key(key) && cold_contents(*m)[key]
                == entry_model(e),
            None => !cold_contents(*m).contains_key(key),
        },
{
    m.get(&key).map(
        |e|
            ColdEntry {
                html: Arc::clone(&e.html),
                url: e.url.clone(),
                last_access: e.last_access,
                created_at: e.created_at,
            },
    )
}

/// Relies on dashmap::DashMap::insert: afterwards the key maps to exactly
/// this value; no other key changes.
#[verifier::external_body]
fn dm_insert(m: &mut DashMap<u64, ColdEntry>, key: u64, value: ColdEntry)
    ensures
        cold_contents(*final(m)) == cold_contents(*old(m)).insert(key, entry_model(value)),
{
    m.insert(key, value);
}

/// Relies on dashmap::DashMap::remove: afterwards the key is absent; what
/// it mapped to, if anything, is returned; no other key changes.
#[verifier::external_body]
fn dm_remove(m: &mut DashMap<u64, ColdEntry>, key: u64) -> (r: Option<ColdEntry>)
    ensures
        cold_contents(*final(m)) == cold_contents(*old(m)).remove(key),
        match r {
            Some(e) => cold_contents(*old(m)).contains_key(key) && cold_contents(*old(m))[key]
                == entry_model(e),
            None => !cold_contents(*old(m)).contains_key(key),
        },
{
    m.remove(&key).map(|kv| kv.1)
}

/// Relies on dashmap::DashMap::len: the number of entries (the contents of
/// a real map are finite).
#[verifier::external_body]
fn dm_len(m: &DashMap<u64, ColdEntry>) -> (r: usize)
    ensures
        r == cold_contents(*m).dom().len(),
{
    m.len()
}

/// Relies on dashmap::DashMap::clear: afterwards the map is empty.
#[verifier::external_body]
fn dm_clear(m: &mut DashMap<u64, ColdEntry>)
    ensures
        cold_contents(*final(m)) == empty_contents(),
{
    m.clear();
}

/// Relies on dashmap::DashMap::iter: with no concurrent writer (this crate
/// reaches the map only through exclusive references), the iterator visits
/// every entry exactly once. Each is handed out as plain values: key, URL,
/// access stamp.
#[verifier::external_body]
fn dm_entries(m: &DashMap<u64, ColdEntry>) -> (r: Vec<(u64, String, u64)>)
    ensures
        r@.len() == cold_contents(*m).dom().len(),
        forall|i: int|
            0 <= i < r@.len() ==> {
                let p = #[trigger] r@[i];
                cold_contents(*m).contains_key(p.0) && cold_contents(*m)[p.0].1 == p.1@
                    && cold_contents(*m)[p.0].2 == p.2
            },
        forall|i: int, j: int| 0 <= i < j < r@.len() ==> r@[i].0 != r@[j].0,
        forall|k: u64|
            #[trigger] cold_contents(*m).contains_key(k) ==> exists|i: int|
                0 <= i < r@.len() && (#[trigger] r@[i]).0 == k,
{
    m.iter().map(|e| (*e.key(), e.value().url.clone(), e.value().last_access)).collect()
}

/// The eviction batch: two percent of capacity, and at least eight.
pub open spec fn spec_batch(max_entries: usize) -> int {
    let b = 2 * (max_entries as int) / 100;
    if b > 8 {
        b
    } else {
        8
    }
}

/// The shared cold cache: the sharded map plus its capacity, the monotonic
/// access counter, the single-evictor guard, and the optional TTL.
pub struct ColdCache {
    cache: DashMap<u64, ColdEntry>,
    max_entries: usize,
    access_counter: u64,
    evicting: bool,
    ttl: Option<u64>,
}

impl ColdCache {
    /// The stored entries, as plain values.
    pub closed spec fn contents(self) -> Map<u64, (Seq<char>, Seq<char>, u64, u64)> {
        cold_contents(self.cache)
    }

    /// The configured capacity.
    pub closed spec fn spec_capacity(self) -> usize {
        self.max_entries
    }

    /// The next access stamp to hand out.
    pub closed spec fn counter(self) -> u64 {
        self.access_counter
    }

    /// The configured TTL in nanoseconds, `None` for no expiry.
    pub closed spec fn spec_ttl(self) -> Option<u64> {
        self.ttl
    }

    /// The single-evictor guard.
    pub closed spec fn is_evicting(self) -> bool {
        self.evicting
    }

    /// Whether a stored entry has outlived the TTL at clock reading `now`.
    pub open spec fn cold_expired(self, v: (Seq<char>, Seq<char>, u64, u64), now: u64) -> bool {
        self.spec_ttl() matches Some(t) && now > v.3 && now - v.3 > t
    }

    /// Well-formedness: finitely many entries, never more than the (positive)
    /// capacity, the evictor guard at rest, and every access stamp unique
    /// and below the counter.
    pub open spec fn wf(self) -> bool {
        &&& self.contents().dom().finite()
        &&& 1 <= self.spec_capacity()
        &&& self.contents().dom().len() <= self.spec_capacity()
        &&& !self.is_evicting()
        &&& forall|k: u64|
            #[trigger] self.contents().contains_key(k) ==> self.contents()[k].2 < self.counter()
        &&& forall|k1: u64, k2: u64|
            #![trigger self.contents()[k1], self.contents()[k2]]
            self.contents().contains_key(k1) && self.contents().contains_key(k2) && k1 != k2
                ==> self.contents()[k1].2 != self.contents()[k2].2
    }

    /// Create a cold cache with no TTL. The capacity must be positive, as a
    /// validated configuration guarantees.
    pub fn new(max_entries: usize) -> (r: Self)
        requires
            max_entries >= 1,
        ensures
            r.wf(),
            r.contents() == empty_contents(),
            r.spec_capacity() == max_entries,
            r.spec_ttl() is None,
            r.counter() == 0,
    {
        Self::with_ttl(max_entries, 0)
    }

    /// Create a cold cache whose entries expire `ttl_secs` seconds after
    /// insertion; 0 means no expiry. The capacity must be positive.
    pub fn with_ttl(max_entries: usize, ttl_secs: u64) -> (r: Self)
        requires
            max_entries >= 1,
        ensures
            r.wf(),
            r.contents() == empty_contents(),
            r.spec_capacity() == max_entries,
            r.spec_ttl() == if ttl_secs == 0 {
                Option::<u64>::None
            } else {
                Option::<u64>::Some(secs_to_ns(ttl_secs))
            },
            r.counter() == 0,
    {
        let ttl = if ttl_secs > 0 {
            match ttl_secs.checked_mul(NANOS_PER_SEC) {
                Some(ns) => Some(ns),
                None => Some(u64::MAX),
            }
        } else {
            None
        };
        ColdCache {
            cache: dm_new(max_entries, SHARD_COUNT),
            max_entries,
            access_counter: 0,
            evicting: false,
            ttl,
        }
    }

    /// Number of stored entries.
    pub fn len(&self) -> (r: usize)
        ensures
            r == self.contents().dom().len(),
    {
        dm_len(&self.cache)
    }

    /// Whether the cache holds no entries.
    pub fn is_empty(&self) -> (r: bool)
        requires
            self.wf(),
        ensures
            r == (self.contents().dom().len() == 0),
    {
        self.len() == 0
    }

    /// The configured capacity.
    pub fn capacity(&self) -> (r: usize)
        ensures
            r == self.spec_capacity(),
    {
        self.max_entries
    }

    /// Drop every entry. Capacity, TTL and the access counter are kept.
    pub fn clear(&mut self)
        requires
            old(self).wf(),
        ensures
            final(self).wf(),
            final(self).contents() == empty_contents(),
            final(self).spec_capacity() == old(self).spec_capacity(),
            final(self).spec_ttl() == old(self).spec_ttl(),
            final(self).counter() == old(self).counter(),
    {
        dm_clear(&mut self.cache);
    }

    /// Look up HTML by fingerprint at an explicit clock reading. A hit
    /// returns exactly the stored blob and refreshes the entry's access
    /// stamp from the monotonic counter, which then advances; an expired
    /// entry is removed and reads as a miss. No other entry changes.
    pub fn get_at(&mut self, url_hash: u64, now: u64) -> (r: Option<Arc<String>>)
        requires
            old(self).wf(),
        ensures
            final(self).wf(),
            final(self).spec_capacity() == old(self).spec_capacity(),
            final(self).spec_ttl() == old(self).spec_ttl(),
            match r {
                Some(h) => {
                    &&& old(self).contents().contains_key(url_hash)
                    &&& h@ == old(self).contents()[url_hash].0
                    &&& !old(self).cold_expired(old(self).contents()[url_hash], now)
                    &&& final(self).contents().dom() == old(self).contents().dom()
                    &&& final(self).contents()[url_hash].0 == h@
                    &&& final(self).contents()[url_hash].1 == old(self).contents()[url_hash].1
                    &&& final(self).contents()[url_hash].3 == old(self).contents()[url_hash].3
                    &&& forall|k: u64|
                        k != url_hash && #[trigger] final(self).contents().contains_key(k)
                            ==> final(self).contents()[k] == old(self).contents()[k]
                    &&& old(self).counter() < u64::MAX ==> final(self).contents()[url_hash].2
                        == old(self).counter() && final(self).counter() == old(self).counter() + 1
                    &&& old(self).counter() == u64::MAX ==> final(self).contents() == old(self).contents() && final(self).counter() == old(self).counter()
                },
                None => {
                    &&& !old(self).contents().contains_key(url_hash) || old(self).cold_expired(
                        old(self).contents()[url_hash],
                        now,
                    )
                    &&& final(self).contents() == old(self).contents().remove(url_hash)
                    &&& final(self).counter() == old(self).counter()
                },
            },
    {
        match dm_get(&self.cache, url_hash) {
            None => {
                proof {
                    assert(self.contents() =~= self.contents().remove(url_hash));
                }
                None
            },
            Some(e) => {
                let expired = match self.ttl {
                    Some(t) => now > e.created_at && now - e.created_at > t,
                    None => false,
                };
                if expired {
                    dm_remove(&mut self.cache, url_hash);
                    proof {
                        assert(self.contents().dom() =~= old(self).contents().dom().remove(
                            url_hash,
                        ));
                    }
                    None
                } else if self.access_counter < u64::MAX {
                    let html = arc_clone(&e.html);
                    let stamp = self.access_counter;
                    self.access_counter = stamp + 1;
                    dm_insert(
                        &mut self.cache,
                        url_hash,
                        ColdEntry {
                            html: e.html,
                            url: e.url,
                            last_access: stamp,
                            created_at: e.created_at,
                        },
                    );
                    proof {
                        assert(self.contents().dom() =~= old(self).contents().dom());
                    }
                    Some(html)
                } else {
                    Some(arc_clone(&e.html))
                }
            },
        }
    }

    /// Look up HTML by fingerprint against the current clock. A hit returns
    /// exactly the stored blob; with no TTL, hit and presence coincide, and
    /// nothing is ever lost.
    pub fn get(&mut self, url_hash: u64) -> (r: Option<Arc<String>>)
        requires
            old(self).wf(),
        ensures
            final(self).wf(),
            final(self).spec_capacity() == old(self).spec_capacity(),
            final(self).spec_ttl() == old(self).spec_ttl(),
            r matches Some(h) ==> old(self).contents().contains_key(url_hash) && h@ == old(self).contents()[url_hash].0,
            r is Some ==> final(self).contents().dom() == old(self).contents().dom() && final(self).contents()[url_hash].0 == old(self).contents()[url_hash].0,
            r is Some && old(self).counter() < u64::MAX ==> final(self).contents()[url_hash].2
                == old(self).counter() && final(self).counter() == old(self).counter() + 1,
            r is None ==> final(self).contents() == old(self).contents().remove(url_hash)
                && final(self).counter() == old(self).counter(),
            old(self).counter() <= final(self).counter(),
            old(self).spec_ttl() is None ==> (r is Some <==> old(self).contents().contains_key(
                url_hash,
            )),
            forall|k: u64|
                k != url_hash ==> ((#[trigger] final(self).contents().contains_key(k)) <==> old(self).contents().contains_key(k)),
            forall|k: u64|
                k != url_hash && #[trigger] final(self).contents().contains_key(k) ==> final(self).contents()[k] == old(self).contents()[k],
    {
        let now = wall_clock_now_ns();
        self.get_at(url_hash, now)
    }

    /// Capacity law: a well-formed cold cache holds at most its capacity.
    /// Every operation returns a well-formed cache, so the bound holds
    /// after any sequence of inserts.
    pub proof fn lemma_capacity_bound(self)
        requires
            self.wf(),
        ensures
            self.contents().dom().len() <= self.spec_capacity(),
    {
    }

    /// The eviction batch for this cache's capacity, as code: two percent
    /// of capacity, and at least eight.
    fn batch_size(max_entries: usize) -> (r: usize)
        ensures
            r == spec_batch(max_entries),
    {
        let b = max_entries / 50;
        proof {
            let m = max_entries as int;
            lemma_fundamental_div_mod(m, 50);
            lemma_fundamental_div_mod_converse(2 * m, 100, m / 50, 2 * (m % 50));
        }
        if b > 8 {
            b
        } else {
            8
        }
    }

    /// Evict a batch of the least recently stamped entries: exactly
    /// `spec_batch(capacity)` of them, or everything if fewer are stored.
    /// Every evicted entry carries a strictly older access stamp than every
    /// kept one; kept entries do not change. If another evictor holds the
    /// guard, nothing is evicted (unreachable through an exclusive
    /// reference, but the guard is what makes concurrent use safe).
    fn evict_batch(&mut self) -> (evicted: usize)
        requires
            old(self).wf(),
        ensures
            final(self).wf(),
            final(self).spec_capacity() == old(self).spec_capacity(),
            final(self).spec_ttl() == old(self).spec_ttl(),
            final(self).counter() == old(self).counter(),
            forall|k: u64|
                #[trigger] final(self).contents().contains_key(k) ==> old(self).contents().contains_key(k) && final(self).contents()[k] == old(self).contents()[k],
            evicted == if spec_batch(old(self).spec_capacity()) <= old(self).contents().dom().len() {
                spec_batch(old(self).spec_capacity())
            } else {
                old(self).contents().dom().len() as int
            },
            final(self).contents().dom().len() == old(self).contents().dom().len() - evicted,
            forall|kr: u64, kk: u64|
                #![trigger old(self).contents().contains_key(kr), final(self).contents().contains_key(kk)]
                old(self).contents().contains_key(kr) && !final(self).contents().contains_key(kr)
                    && final(self).contents().contains_key(kk) ==> old(self).contents()[kr].2 < old(self).contents()[kk].2,
    {
        if self.evicting {
            return 0;
        }
        self.evicting = true;
        let batch = Self::batch_size(self.max_entries);
        let all = dm_entries(&self.cache);
        let mut remaining: Vec<(u64, u64)> = Vec::new();
        let n = all.len();
        let mut idx: usize = 0;
        while idx < n
            invariant
                n == all@.len(),
                idx <= n,
                remaining@.len() == idx,
                forall|i: int|
                    0 <= i < idx ==> (#[trigger] remaining@[i]) == (all@[i].0, all@[i].2),
            decreases n - idx,
        {
            let k = all[idx].0;
            let s = all[idx].2;
            remaining.push((k, s));
            idx = idx + 1;
        }
        let ghost orig = self.contents();
        proof {
            assert forall|i: int, j: int|
                0 <= i < j < remaining@.len() implies remaining@[i].0 != remaining@[j].0 by {
                assert(all@[i].0 != all@[j].0);
            }
            assert forall|k: u64|
                #[trigger] self.contents().contains_key(k) implies exists|i: int|
                0 <= i < remaining@.len() && (#[trigger] remaining@[i]).0 == k by {
                let i = choose|i: int| 0 <= i < all@.len() && (#[trigger] all@[i]).0 == k;
                assert(remaining@[i].0 == k);
            }
        }
        let mut evicted: usize = 0;
        while evicted < batch && remaining.len() > 0
            invariant
                old(self).wf(),
                self.spec_capacity() == old(self).spec_capacity(),
                self.spec_ttl() == old(self).spec_ttl(),
                self.counter() == old(self).counter(),
                self.is_evicting(),
                orig == old(self).contents(),
                orig.dom().finite(),
                self.contents().dom().finite(),
                evicted <= batch,
                evicted + self.contents().dom().len() == orig.dom().len(),
                remaining@.len() == self.contents().dom().len(),
                forall|k: u64|
                    #[trigger] self.contents().contains_key(k) ==> orig.contains_key(k)
                        && self.contents()[k] == orig[k],
                forall|i: int|
                    0 <= i < remaining@.len() ==> self.contents().contains_key(
                        (#[trigger] remaining@[i]).0,
                    ) && self.contents()[remaining@[i].0].2 == remaining@[i].1,
                forall|i: int, j: int|
                    0 <= i < j < remaining@.len() ==> remaining@[i].0 != remaining@[j].0,
                forall|k: u64|
                    #[trigger] self.contents().contains_key(k) ==> exists|i: int|
                        0 <= i < remaining@.len() && (#[trigger] remaining@[i]).0 == k,
                forall|kr: u64, kk: u64|
                    #![trigger orig.contains_key(kr), self.contents().contains_key(kk)]
                    orig.contains_key(kr) && !self.contents().contains_key(kr)
                        && self.contents().contains_key(kk) ==> orig[kr].2 < orig[kk].2,
            decreases remaining@.len(),
        {
            let ghost pre = *self;
            let ghost pre_rem = remaining@;
            let mi = min_index(&remaining);
            let pair = remaining.swap_remove(mi);
            let k = pair.0;
            dm_remove(&mut self.cache, k);
            evicted = evicted + 1;
            proof {
                assert(pre.contents().contains_key(k));
                assert(self.contents() == pre.contents().remove(k));
                assert(self.contents().dom() =~= pre.contents().dom().remove(k));
                let nr = remaining@;
                assert(nr == pre_rem.update(mi as int, pre_rem.last()).drop_last());
                assert forall|i: int|
                    0 <= i < nr.len() implies self.contents().contains_key(
                    (#[trigger] nr[i]).0,
                ) && self.contents()[nr[i].0].2 == nr[i].1 by {
                    if i == mi {
                        assert(nr[i] == pre_rem.last());
                        assert(pre_rem[pre_rem.len() - 1].0 != k);
                    } else {
                        assert(nr[i] == pre_rem[i]);
                        assert(pre_rem[i].0 != pre_rem[mi as int].0);
                    }
                }
                assert forall|i: int, j: int|
                    0 <= i < j < nr.len() implies nr[i].0 != nr[j].0 by {
                    let pi = if i == mi {
                        pre_rem.len() - 1
                    } else {
                        i
                    };
                    let pj = if j == mi {
                        pre_rem.len() - 1
                    } else {
                        j
                    };
                    assert(nr[i] == pre_rem[pi] && nr[j] == pre_rem[pj]);
                }
                assert forall|kx: u64|
                    #[trigger] self.contents().contains_key(kx) implies exists|i: int|
                    0 <= i < nr.len() && (#[trigger] nr[i]).0 == kx by {
                    assert(pre.contents().contains_key(kx) && kx != k);
                    let i = choose|i: int|
                        0 <= i < pre_rem.len() && (#[trigger] pre_rem[i]).0 == kx;
                    if i == mi {
                        assert(pre_rem[mi as int].0 == k);
                        assert(false);
                    } else if i == pre_rem.len() - 1 {
                        assert(nr[mi as int] == pre_rem[i]);
                    } else {
                        assert(nr[i] == pre_rem[i]);
                    }
                }
                assert forall|kr: u64, kk: u64|
                    #![trigger orig.contains_key(kr), self.contents().contains_key(kk)]
                    orig.contains_key(kr) && !self.contents().contains_key(kr)
                        && self.contents().contains_key(kk) implies orig[kr].2 < orig[kk].2 by {
                    if pre.contents().contains_key(kr) {
                        assert(kr == k);
                        assert(orig[k].2 == pair.1);
                        let i = choose|i: int| 0 <= i < nr.len() && (#[trigger] nr[i]).0 == kk;
                        assert(pair.1 <= nr[i].1) by {
                            if i == mi {
                                assert(nr[i] == pre_rem.last());
                                assert(pair.1 <= pre_rem[pre_rem.len() - 1].1);
                            } else {
                                assert(nr[i] == pre_rem[i]);
                            }
                        }
                        assert(orig[kk].2 == nr[i].1);
                        assert(kk != k);
                        assert(orig[kr].2 != orig[kk].2);
                    }
                }
            }
        }
        self.evicting = false;
        evicted
    }

    /// Insert HTML under its fingerprint at an explicit clock reading,
    /// returning how many entries were evicted to make room. Eviction fires
    /// exactly when the cache is at capacity, and removes a batch of the
    /// least recently stamped entries; afterwards the size is again within
    /// capacity. (Should the access counter ever be exhausted, the cache
    /// clears itself and starts a fresh epoch.)
    pub fn insert_at(&mut self, url_hash: u64, url: &str, html: Arc<String>, now: u64) -> (evicted:
        usize)
        requires
            old(self).wf(),
        ensures
            final(self).wf(),
            final(self).spec_capacity() == old(self).spec_capacity(),
            final(self).spec_ttl() == old(self).spec_ttl(),
            final(self).contents().contains_key(url_hash),
            final(self).contents()[url_hash].0 == html@,
            final(self).contents()[url_hash].1 == url@,
            final(self).contents()[url_hash].3 == now,
            final(self).contents().dom().len() <= final(self).spec_capacity(),
            old(self).counter() < u64::MAX ==> forall|k: u64|
                k != url_hash && #[trigger] final(self).contents().contains_key(k) ==> old(self).contents().contains_key(k) && final(self).contents()[k] == old(self).contents()[k],
            old(self).counter() < u64::MAX && old(self).contents().dom().len() < old(self).spec_capacity() ==> evicted == 0 && final(self).contents().dom() == old(self).contents().dom().insert(url_hash),
            old(self).counter() < u64::MAX && old(self).contents().dom().len() >= old(self).spec_capacity() ==> evicted > 0,
            old(self).counter() < u64::MAX ==> forall|kr: u64, kk: u64|
                #![trigger old(self).contents()[kr], old(self).contents()[kk]]
                kr != url_hash && kk != url_hash && old(self).contents().contains_key(kr) && !final(self).contents().contains_key(kr) && final(self).contents().contains_key(kk) && old(self).contents().contains_key(kk) ==> old(self).contents()[kr].2 < old(self).contents()[kk].2,
            old(self).counter() < u64::MAX ==> final(self).counter() == old(self).counter() + 1
                && final(self).contents()[url_hash].2 == old(self).counter(),
            old(self).counter() == u64::MAX ==> final(self).counter() == 1 && evicted == 0
                && final(self).contents().dom() == empty_contents().dom().insert(url_hash),
    {
        if self.access_counter == u64::MAX {
            dm_clear(&mut self.cache);
            self.access_counter = 0;
        }
        let evicted = if dm_len(&self.cache) >= self.max_entries {
            self.evict_batch()
        } else {
            0
        };
        let stamp = self.access_counter;
        self.access_counter = stamp + 1;
        dm_insert(
            &mut self.cache,
            url_hash,
            ColdEntry { html, url: url.to_owned(), last_access: stamp, created_at: now },
        );
        proof {
            if old(self).counter() < u64::MAX && old(self).contents().dom().len() < old(self).spec_capacity() {
                assert(self.contents().dom() =~= old(self).contents().dom().insert(url_hash));
            }
            if old(self).counter() == u64::MAX {
                assert(self.contents().dom() =~= empty_contents().dom().insert(url_hash));
            }
            assert(self.contents().dom() =~= self.contents().dom().remove(url_hash).insert(
                url_hash,
            ));
            vstd::set::axiom_set_insert_len(self.contents().dom().remove(url_hash), url_hash);
        }
        evicted
    }

    /// Insert HTML under its fingerprint against the current clock,
    /// returning how many entries were evicted to make room.
    pub fn insert(&mut self, url_hash: u64, url: &str, html: Arc<String>) -> (evicted: usize)
        requires
            old(self).wf(),
        ensures
            final(self).wf(),
            final(self).spec_capacity() == old(self).spec_capacity(),
            final(self).spec_ttl() == old(self).spec_ttl(),
            final(self).contents().contains_key(url_hash),
            final(self).contents()[url_hash].0 == html@,
            final(self).contents()[url_hash].1 == url@,
            final(self).contents().dom().len() <= final(self).spec_capacity(),
            old(self).counter() < u64::MAX ==> forall|k: u64|
                k != url_hash && #[trigger] final(self).contents().contains_key(k) ==> old(self).contents().contains_key(k) && final(self).contents()[k] == old(self).contents()[k],
            old(self).counter() < u64::MAX && old(self).contents().dom().len() < old(self).spec_capacity() ==> evicted == 0 && final(self).contents().dom() == old(self).contents().dom().insert(url_hash),
            old(self).counter() < u64::MAX && old(self).contents().dom().len() >= old(self).spec_capacity() ==> evicted > 0,
            old(self).counter() < u64::MAX ==> forall|kr: u64, kk: u64|
                #![trigger old(self).contents()[kr], old(self).contents()[kk]]
                kr != url_hash && kk != url_hash && old(self).contents().contains_key(kr) && !final(self).contents().contains_key(kr) && final(self).contents().contains_key(kk) && old(self).contents().contains_key(kk) ==> old(self).contents()[kr].2 < old(self).contents()[kk].2,
            old(self).counter() < u64::MAX ==> final(self).counter() == old(self).counter() + 1
                && final(self).contents()[url_hash].2 == old(self).counter(),
            old(self).counter() == u64::MAX ==> final(self).counter() == 1 && evicted == 0
                && final(self).contents().dom() == empty_contents().dom().insert(url_hash),
    {
        let now = wall_clock_now_ns();
        self.insert_at(url_hash, url, html, now)
    }

    /// Remove one fingerprint; reports whether it was present.
    pub fn remove(&mut self, url_hash: u64) -> (r: bool)
        requires
            old(self).wf(),
        ensures
            final(self).wf(),
            final(self).spec_capacity() == old(self).spec_capacity(),
            final(self).spec_ttl() == old(self).spec_ttl(),
            final(self).contents() == old(self).contents().remove(url_hash),
            r == old(self).contents().contains_key(url_hash),
            final(self).counter() == old(self).counter(),
    {
        let r = dm_remove(&mut self.cache, url_hash);
        proof {
            assert(self.contents().dom() =~= old(self).contents().dom().remove(url_hash));
        }
        match r {
            Some(_) => true,
            None => {
                proof {
                    assert(self.contents() =~= old(self).contents());
                }
                false
            },
        }
    }

    /// Remove every entry whose URL starts with the given prefix, returning
    /// how many were removed. Everything else is untouched. The scan is
    /// linear in the number of entries: an administrative operation.
    pub fn remove_by_prefix(&mut self, prefix: &str) -> (r: usize)
        requires
            old(self).wf(),
        ensures
            final(self).wf(),
            final(self).spec_capacity() == old(self).spec_capacity(),
            final(self).spec_ttl() == old(self).spec_ttl(),
            forall|k: u64|
                #[trigger] final(self).contents().contains_key(k) <==> (old(self).contents().contains_key(k) && !is_prefix_of(
                    prefix@,
                    old(self).contents()[k].1,
                )),
            forall|k: u64|
                #[trigger] final(self).contents().contains_key(k) ==> final(self).contents()[k]
                    == old(self).contents()[k],
            r + final(self).contents().dom().len() == old(self).contents().dom().len(),
            final(self).counter() == old(self).counter(),
    {
        let all = dm_entries(&self.cache);
        let ghost orig = self.contents();
        let n = all.len();
        let mut count: usize = 0;
        let mut idx: usize = 0;
        while idx < n
            invariant
                old(self).wf(),
                n == all@.len(),
                idx <= n,
                orig == old(self).contents(),
                self.spec_capacity() == old(self).spec_capacity(),
                self.spec_ttl() == old(self).spec_ttl(),
                self.counter() == old(self).counter(),
                !self.is_evicting(),
                self.contents().dom().finite(),
                n == orig.dom().len(),
                forall|i: int|
                    0 <= i < n ==> orig.contains_key((#[trigger] all@[i]).0) && orig[all@[i].0].1
                        == all@[i].1@,
                forall|i: int, j: int| 0 <= i < j < n ==> all@[i].0 != all@[j].0,
                forall|k: u64|
                    #[trigger] orig.contains_key(k) ==> exists|i: int|
                        0 <= i < n && (#[trigger] all@[i]).0 == k,
                forall|k: u64|
                    #[trigger] self.contents().contains_key(k) ==> orig.contains_key(k)
                        && self.contents()[k] == orig[k],
                forall|i: int|
                    0 <= i < idx ==> (self.contents().contains_key((#[trigger] all@[i]).0)
                        <==> !is_prefix_of(prefix@, orig[all@[i].0].1)),
                forall|i: int|
                    idx <= i < n ==> self.contents().contains_key((#[trigger] all@[i]).0),
                forall|k: u64|
                    orig.contains_key(k) && !(#[trigger] self.contents().contains_key(k))
                        ==> is_prefix_of(prefix@, orig[k].1),
                count + self.contents().dom().len() == orig.dom().len(),
            decreases n - idx,
        {
            let key = all[idx].0;
            let hit = str_starts_with(all[idx].1.as_str(), prefix);
            if hit {
                let ghost pre = self.contents();
                dm_remove(&mut self.cache, key);
                count = count + 1;
                proof {
                    assert(self.contents().dom() =~= pre.dom().remove(key));
                    assert forall|i: int|
                        idx + 1 <= i < n implies self.contents().contains_key(
                        (#[trigger] all@[i]).0,
                    ) by {
                        assert(all@[i].0 != key);
                    }
                }
            }
            idx = idx + 1;
        }
        proof {
            assert forall|k: u64|
                #[trigger] self.contents().contains_key(k) <==> (orig.contains_key(k)
                    && !is_prefix_of(prefix@, orig[k].1)) by {
                if orig.contains_key(k) {
                    let i = choose|i: int| 0 <= i < n && (#[trigger] all@[i]).0 == k;
                    assert(self.contents().contains_key(k) <==> !is_prefix_of(
                        prefix@,
                        orig[k].1,
                    ));
                }
            }
        }
        count
    }
}

/// Index of an entry with the smallest stamp.
fn min_index(v: &Vec<(u64, u64)>) -> (r: usize)
    requires
        v@.len() > 0,
    ensures
        r < v@.len(),
        forall|j: int| 0 <= j < v@.len() ==> v@[r as int].1 <= (#[trigger] v@[j]).1,
{
    let mut best: usize = 0;
    let mut i: usize = 1;
    while i < v.len()
        invariant
            best < v@.len(),
            i <= v@.len(),
            forall|j: int| 0 <= j < i ==> v@[best as int].1 <= (#[trigger] v@[j]).1,
        decreases v@.len() - i,
    {
        if v[i].1 < v[best].1 {
            best = i;
        }
        i = i + 1;
    }
    best
}

} // verus!

