//! Byte-budgeted asset cache with least-recently-used eviction.
//!
//! The cache stores opaque resource handles (the decoded texture or font
//! itself lives outside the library) keyed by asset path, together with
//! each resource's byte size and a logical last-access stamp. After an
//! insert, the oldest entries are evicted until the resident total fits
//! the budget again; a single resource larger than the whole budget is
//! still inserted and then stands alone, over budget by design, until the
//! next insert evicts it.
//!
//! Loading on a miss is delegated to an external loader: the caller asks
//! the cache first ([`AssetCache::get_or_load_resident`]), invokes the
//! loader only when that returns `None`, and hands the loaded resource
//! back ([`AssetCache::complete_load`]). When two loads of the same key
//! race, the first result to arrive wins and the loser is discarded.

use vstd::prelude::*;

verus! {

/// One resident asset: key, opaque resource handle, byte size, and the
/// logical time of its last access.
pub struct CacheEntry {
    pub key: String,
    pub handle: u64,
    pub size: u64,
    pub last_access: u64,
}

/// Total byte size of a sequence of entries.
pub open spec fn size_sum(s: Seq<CacheEntry>) -> int
    decreases s.len(),
{
    if s.len() == 0 {
        0
    } else {
        s[0].size + size_sum(s.drop_first())
    }
}

/// Whether some entry of `s` holds key `k`.
pub open spec fn spec_has_key(s: Seq<CacheEntry>, k: Seq<char>) -> bool {
    exists|i: int| 0 <= i < s.len() && s[i].key@ == k
}

/// The entry of `s` holding key `k` (unique when keys are distinct).
pub open spec fn spec_entry_for(s: Seq<CacheEntry>, k: Seq<char>) -> CacheEntry
    recommends
        spec_has_key(s, k),
{
    s[choose|i: int| 0 <= i < s.len() && s[i].key@ == k]
}

proof fn lemma_size_sum_nonneg(s: Seq<CacheEntry>)
    ensures
        size_sum(s) >= 0,
    decreases s.len(),
{
    if s.len() > 0 {
        lemma_size_sum_nonneg(s.drop_first());
    }
}

proof fn lemma_size_sum_push(s: Seq<CacheEntry>, e: CacheEntry)
    ensures
        size_sum(s.push(e)) == size_sum(s) + e.size,
    decreases s.len(),
{
    if s.len() == 0 {
        assert(s.push(e).drop_first() =~= s);
    } else {
        assert(s.push(e).drop_first() =~= s.drop_first().push(e));
        lemma_size_sum_push(s.drop_first(), e);
    }
}

proof fn lemma_size_sum_remove(s: Seq<CacheEntry>, i: int)
    requires
        0 <= i < s.len(),
    ensures
        size_sum(s.remove(i)) == size_sum(s) - s[i].size,
    decreases s.len(),
{
    if i == 0 {
        assert(s.remove(0) =~= s.drop_first());
    } else {
        assert(s.remove(i).drop_first() =~= s.drop_first().remove(i - 1));
        lemma_size_sum_remove(s.drop_first(), i - 1);
    }
}

/// The asset cache.
pub struct AssetCache {
    entries: Vec<CacheEntry>,
    budget_bytes: u64,
    clock: u64,
}

impl AssetCache {
    /// The resident entries, in insertion order.
    pub closed spec fn spec_entries(&self) -> Seq<CacheEntry> {
        self.entries@
    }

    /// The configured byte budget.
    pub closed spec fn spec_budget(&self) -> u64 {
        self.budget_bytes
    }

    /// The logical access clock: strictly newer than every stamp held.
    pub closed spec fn spec_clock(&self) -> u64 {
        self.clock
    }

    /// Total resident byte size.
    pub open spec fn spec_total(&self) -> int {
        size_sum(self.spec_entries())
    }

    /// Whether an asset with key `k` is resident.
    pub open spec fn spec_has(&self, k: Seq<char>) -> bool {
        spec_has_key(self.spec_entries(), k)
    }

    /// The resident entry for key `k`.
    pub open spec fn spec_entry(&self, k: Seq<char>) -> CacheEntry {
        spec_entry_for(self.spec_entries(), k)
    }

    /// Cache well-formedness: keys are distinct, access stamps are
    /// distinct and older than the clock, and the resident total fits the
    /// budget — except that a single entry may exceed it alone.
    pub open spec fn wf(&self) -> bool {
        &&& (forall|i: int, j: int|
            0 <= i < self.spec_entries().len() && 0 <= j < self.spec_entries().len() && i != j
                ==> self.spec_entries()[i].key@ != self.spec_entries()[j].key@)
        &&& (forall|i: int, j: int|
            0 <= i < self.spec_entries().len() && 0 <= j < self.spec_entries().len() && i != j
                ==> self.spec_entries()[i].last_access != self.spec_entries()[j].last_access)
        &&& (forall|i: int|
            0 <= i < self.spec_entries().len() ==> self.spec_entries()[i].last_access
                < self.spec_clock())
        &&& (size_sum(self.spec_entries()) <= self.spec_budget() || (self.spec_entries().len()
            == 1 && self.spec_entries()[0].size > self.spec_budget()))
    }

    /// An empty cache with the given byte budget.
    pub fn new(budget_bytes: u64) -> (c: AssetCache)
        ensures
            c.wf(),
            c.spec_entries().len() == 0,
            c.spec_budget() == budget_bytes,
    {
        AssetCache { entries: Vec::new(), budget_bytes, clock: 0 }
    }

    /// The configured byte budget.
    pub fn budget_bytes(&self) -> (r: u64)
        ensures
            r == self.spec_budget(),
    {
        self.budget_bytes
    }

    /// The logical access clock; every access advances it by one, so a
    /// caller can see it is nowhere near exhaustion.
    pub fn access_clock(&self) -> (r: u64)
        ensures
            r == self.spec_clock(),
    {
        self.clock
    }

    /// Number of resident assets.
    pub fn len(&self) -> (r: usize)
        ensures
            r == self.spec_entries().len(),
    {
        self.entries.len()
    }

    /// Total resident byte size.
    pub fn total_bytes(&self) -> (r: u64)
        requires
            self.wf(),
        ensures
            r == self.spec_total(),
    {
        proof {
            lemma_size_sum_nonneg(self.entries@);
        }
        let mut total: u64 = 0;
        let mut i: usize = 0;
        while i < self.entries.len()
            invariant
                self.wf(),
                i <= self.entries@.len(),
                total == size_sum(self.entries@.take(i as int)),
                size_sum(self.entries@.take(i as int)) <= size_sum(self.entries@),
            decreases self.entries@.len() - i,
        {
            proof {
                assert(self.entries@.take(i as int).push(self.entries@[i as int]) =~= self
                    .entries@.take(i as int + 1));
                lemma_size_sum_push(self.entries@.take(i as int), self.entries@[i as int]);
                lemma_size_sum_take_bound(self.entries@, i as int + 1);
                if self.entries@.len() == 1 {
                    assert(size_sum(self.entries@) == self.entries@[0].size + size_sum(
                        self.entries@.drop_first(),
                    ));
                }
            }
            total = total + self.entries[i].size;
            i = i + 1;
        }
        proof {
            assert(self.entries@.take(i as int) =~= self.entries@);
        }
        total
    }

    /// Looks a key up without counting it as an access: the handle if the
    /// asset is resident, `None` otherwise.
    pub fn get_texture(&self, key: &String) -> (r: Option<u64>)
        requires
            self.wf(),
        ensures
            match r {
                Some(h) => self.spec_has(key@) && h == self.spec_entry(key@).handle,
                None => !self.spec_has(key@),
            },
    {
        match self.find_index(key) {
            Some(i) => {
                proof {
                    assert(spec_has_key(self.entries@, key@));
                    let w = choose|w: int|
                        0 <= w < self.entries@.len() && self.entries@[w].key@ == key@;
                    assert(w == i);
                }
                Some(self.entries[i].handle)
            },
            None => None,
        }
    }

    /// The hit path of `get_or_load`: when the asset is resident, stamps
    /// it as just used and returns its handle; `None` means the caller
    /// must invoke the loader and then call [`AssetCache::complete_load`].
    /// A resident key therefore never reaches the loader.
    pub fn get_or_load_resident(&mut self, key: &String) -> (r: Option<u64>)
        requires
            old(self).wf(),
            old(self).spec_clock() < u64::MAX,
        ensures
            final(self).wf(),
            final(self).spec_budget() == old(self).spec_budget(),
            match r {
                Some(h) => {
                    &&& old(self).spec_has(key@)
                    &&& h == old(self).spec_entry(key@).handle
                    &&& final(self).spec_has(key@)
                    &&& final(self).spec_entry(key@).handle == h
                    &&& final(self).spec_entry(key@).size == old(self).spec_entry(key@).size
                    &&& final(self).spec_total() == old(self).spec_total()
                    &&& final(self).spec_entries().len() == old(self).spec_entries().len()
                    &&& (forall|i: int|
                        0 <= i < old(self).spec_entries().len() && old(self).spec_entries()[i].key@
                            != key@ ==> final(self).spec_entries()[i] == old(
                            self,
                        ).spec_entries()[i])
                },
                None => {
                    &&& !old(self).spec_has(key@)
                    &&& *final(self) == *old(self)
                },
            },
    {
        match self.find_index(key) {
            Some(i) => {
                let h = self.entries[i].handle;
                let ghost pre = self.entries@;
                let entry = &mut self.entries[i];
                entry.last_access = self.clock;
                proof {
                    assert(self.entries@ =~= pre.update(
                        i as int,
                        CacheEntry { last_access: self.clock, ..pre[i as int] },
                    ));
                }
                self.clock = self.clock + 1;
                proof {
                    lemma_size_sum_update_same_size(pre, self.entries@, i as int);
                    assert(self.entries@[i as int].key@ == key@);
                    assert(spec_has_key(self.entries@, key@));
                    let w = choose|w: int|
                        0 <= w < self.entries@.len() && self.entries@[w].key@ == key@;
                    assert(w == i);
                    let v = choose|v: int| 0 <= v < pre.len() && pre[v].key@ == key@;
                    assert(v == i);
                }
                Some(h)
            },
            None => None,
        }
    }

    /// The completion path of `get_or_load`: hands the cache a freshly
    /// loaded resource of `size` bytes under `key`. If the key is already
    /// resident — two loads of it raced — the resident resource wins, the
    /// new one is discarded and the cache is unchanged. Otherwise the
    /// entry is inserted as most recently used and the oldest entries are
    /// evicted, least recently used first and never more than needed,
    /// until the total fits the budget again; the new entry itself is
    /// never evicted, even when it alone exceeds the budget.
    ///
    /// Returns the handle now resident under `key`.
    pub fn complete_load(&mut self, key: String, handle: u64, size: u64) -> (h: u64)
        requires
            old(self).wf(),
            old(self).spec_clock() < u64::MAX,
        ensures
            final(self).wf(),
            final(self).spec_budget() == old(self).spec_budget(),
            final(self).spec_has(key@),
            h == final(self).spec_entry(key@).handle,
            old(self).spec_has(key@) ==> {
                &&& *final(self) == *old(self)
                &&& h == old(self).spec_entry(key@).handle
            },
            !old(self).spec_has(key@) ==> {
                let kept = final(self).spec_entries();
                let pre = old(self).spec_entries();
                &&& h == handle
                &&& final(self).spec_entry(key@).handle == handle
                &&& final(self).spec_entry(key@).size == size
                // every surviving entry other than the new one was resident before
                &&& (forall|i: int|
                    0 <= i < kept.len() && kept[i].key@ != key@ ==> exists|j: int|
                        0 <= j < pre.len() && kept[i] == pre[j])
                // eviction is strictly least-recently-used-first
                &&& (forall|i: int, j: int|
                    0 <= i < kept.len() && kept[i].key@ != key@ && 0 <= j < pre.len()
                        && !spec_has_key(kept, pre[j].key@) ==> kept[i].last_access
                        > pre[j].last_access)
                // and never evicts more than needed to satisfy the budget
                &&& ((exists|j: int| 0 <= j < pre.len() && !spec_has_key(kept, pre[j].key@))
                    ==> exists|y: int|
                    0 <= y < pre.len() && !spec_has_key(kept, pre[y].key@) && size_sum(kept)
                        + pre[y].size > old(self).spec_budget())
            },
    {
        match self.find_index(&key) {
            Some(i) => self.entries[i].handle,
            None => {
                self.insert_and_evict(key, handle, size);
                handle
            },
        }
    }

    /// Finds the index of the entry holding `key`.
    fn find_index(&self, key: &String) -> (r: Option<usize>)
        ensures
            match r {
                Some(i) => i < self.spec_entries().len() && self.spec_entries()[i as int].key@
                    == key@,
                None => !self.spec_has(key@),
            },
    {
        let mut i: usize = 0;
        while i < self.entries.len()
            invariant
                i <= self.entries@.len(),
                forall|j: int| 0 <= j < i ==> self.entries@[j].key@ != key@,
            decreases self.entries@.len() - i,
        {
            if self.entries[i].key == *key {
                return Some(i);
            }
            i = i + 1;
        }
        None
    }

    /// Index of the least recently used entry.
    fn lru_index(&self) -> (r: usize)
        requires
            self.spec_entries().len() >= 1,
        ensures
            r < self.spec_entries().len(),
            forall|j: int|
                0 <= j < self.spec_entries().len() ==> self.spec_entries()[r as int].last_access
                    <= self.spec_entries()[j].last_access,
    {
        let mut best: usize = 0;
        let mut i: usize = 1;
        while i < self.entries.len()
            invariant
                best < i,
                i <= self.entries@.len(),
                forall|j: int|
                    0 <= j < i ==> self.entries@[best as int].last_access
                        <= self.entries@[j].last_access,
            decreases self.entries@.len() - i,
        {
            if self.entries[i].last_access < self.entries[best].last_access {
                best = i;
            }
            i = i + 1;
        }
        best
    }

    /// Inserts a key known to be absent as the most recent entry, then
    /// evicts least-recently-used entries until the total fits the budget
    /// or only the new entry remains.
    fn insert_and_evict(&mut self, key: String, handle: u64, size: u64)
        requires
            old(self).wf(),
            old(self).spec_clock() < u64::MAX,
            !old(self).spec_has(key@),
        ensures
            final(self).wf(),
            final(self).spec_budget() == old(self).spec_budget(),
            final(self).spec_has(key@),
            final(self).spec_entry(key@) == (CacheEntry {
                key: key,
                handle: handle,
                size: size,
                last_access: old(self).spec_clock(),
            }),
            ({
                let kept = final(self).spec_entries();
                let pre = old(self).spec_entries();
                &&& (forall|i: int|
                    0 <= i < kept.len() && kept[i].key@ != key@ ==> exists|j: int|
                        0 <= j < pre.len() && kept[i] == pre[j])
                &&& (forall|i: int, j: int|
                    0 <= i < kept.len() && kept[i].key@ != key@ && 0 <= j < pre.len()
                        && !spec_has_key(kept, pre[j].key@) ==> kept[i].last_access
                        > pre[j].last_access)
                &&& ((exists|j: int| 0 <= j < pre.len() && !spec_has_key(kept, pre[j].key@))
                    ==> exists|y: int|
                    0 <= y < pre.len() && !spec_has_key(kept, pre[y].key@) && size_sum(kept)
                        + pre[y].size > old(self).spec_budget())
            }),
    {
        let ghost pre = self.entries@;
        let ghost new_entry = CacheEntry {
            key: key,
            handle: handle,
            size: size,
            last_access: self.clock,
        };
        let stamp = self.clock;
        self.clock = self.clock + 1;
        let mut wide: u128 = 0;
        let mut i: usize = 0;
        while i < self.entries.len()
            invariant
                i <= self.entries@.len(),
                wide == size_sum(self.entries@.take(i as int)),
                wide <= (i as int) * (u64::MAX as int),
            decreases self.entries@.len() - i,
        {
            proof {
                assert(self.entries@.take(i as int).push(self.entries@[i as int]) =~= self
                    .entries@.take(i as int + 1));
                lemma_size_sum_push(self.entries@.take(i as int), self.entries@[i as int]);
            }
            wide = wide + self.entries[i].size as u128;
            i = i + 1;
        }
        proof {
            assert(self.entries@.take(self.entries@.len() as int) =~= self.entries@);
        }
        self.entries.push(CacheEntry { key, handle, size, last_access: stamp });
        proof {
            lemma_size_sum_push(pre, new_entry);
            assert(forall|j: int| 0 <= j < pre.len() ==> pre[j].key@ != new_entry.key@);
            assert(self.entries@[pre.len() as int] == new_entry);
            assert(spec_has_key(self.entries@, new_entry.key@));
            let w = choose|w: int|
                0 <= w < self.entries@.len() && self.entries@[w].key@ == new_entry.key@;
            assert(w == pre.len() as int);
            assert forall|j: int| 0 <= j < pre.len() implies spec_has_key(
                self.entries@,
                pre[j].key@,
            ) by {
                assert(self.entries@[j] == pre[j]);
            }
        }
        wide = wide + size as u128;
        let ghost mut last_evicted: Option<CacheEntry> = None;
        while wide > self.budget_bytes as u128 && self.entries.len() > 1
            invariant
                self.budget_bytes == old(self).spec_budget(),
                self.clock == old(self).spec_clock() + 1,
                self.entries@.len() >= 1,
                wide == size_sum(self.entries@),
                // facts about the entries as they stood before the insert
                forall|a: int, b: int|
                    0 <= a < pre.len() && 0 <= b < pre.len() && a != b ==> pre[a].key@
                        != pre[b].key@,
                forall|a: int, b: int|
                    0 <= a < pre.len() && 0 <= b < pre.len() && a != b ==> pre[a].last_access
                        != pre[b].last_access,
                forall|a: int|
                    0 <= a < pre.len() ==> pre[a].last_access < new_entry.last_access,
                // the new entry is resident and most recent
                spec_has_key(self.entries@, new_entry.key@),
                spec_entry_for(self.entries@, new_entry.key@) == new_entry,
                new_entry.last_access == old(self).spec_clock(),
                // uniqueness and stamp bounds
                forall|a: int, b: int|
                    0 <= a < self.entries@.len() && 0 <= b < self.entries@.len() && a != b
                        ==> self.entries@[a].key@ != self.entries@[b].key@,
                forall|a: int, b: int|
                    0 <= a < self.entries@.len() && 0 <= b < self.entries@.len() && a != b
                        ==> self.entries@[a].last_access != self.entries@[b].last_access,
                forall|a: int|
                    0 <= a < self.entries@.len() ==> self.entries@[a].last_access < self.clock,
                // provenance: everything but the new entry comes from pre
                forall|a: int|
                    0 <= a < self.entries@.len() && self.entries@[a].key@ != new_entry.key@
                        ==> exists|j: int| 0 <= j < pre.len() && self.entries@[a] == pre[j],
                // old entries are strictly older than the new entry
                forall|a: int|
                    0 <= a < self.entries@.len() && self.entries@[a].key@ != new_entry.key@
                        ==> self.entries@[a].last_access < new_entry.last_access,
                // eviction bookkeeping
                match last_evicted {
                    None => forall|j: int|
                        0 <= j < pre.len() ==> spec_has_key(self.entries@, pre[j].key@),
                    Some(y) => {
                        &&& !spec_has_key(self.entries@, y.key@)
                        &&& (exists|j: int| 0 <= j < pre.len() && pre[j] == y)
                        &&& size_sum(self.entries@) + y.size > self.budget_bytes
                        &&& (forall|a: int|
                            0 <= a < self.entries@.len() ==> self.entries@[a].last_access
                                > y.last_access)
                        &&& (forall|j: int|
                            0 <= j < pre.len() && !spec_has_key(self.entries@, pre[j].key@)
                                ==> pre[j].last_access <= y.last_access)
                    },
                },
            decreases self.entries@.len(),
        {
            let victim = self.lru_index();
            let ghost evicted = self.entries@[victim as int];
            let ghost prev_evicted = last_evicted;
            proof {
                // the new entry is strictly most recent, so it is not the victim
                let n = choose|n: int|
                    0 <= n < self.entries@.len() && self.entries@[n].key@ == new_entry.key@;
                assert(self.entries@[n] == new_entry);
                assert(self.entries@.len() > 1);
                if victim as int == n {
                    let other: int = if n == 0 {
                        1
                    } else {
                        0
                    };
                    assert(self.entries@[other].last_access < new_entry.last_access);
                    assert(false);
                }
                assert(evicted.key@ != new_entry.key@);
                lemma_size_sum_remove(self.entries@, victim as int);
                lemma_size_sum_nonneg(self.entries@.remove(victim as int));
            }
            let removed_size = self.entries[victim].size;
            let ghost pre_removal = self.entries@;
            self.entries.remove(victim);
            wide = wide - removed_size as u128;
            proof {
                last_evicted = Some(evicted);
                assert forall|a: int| 0 <= a < self.entries@.len() implies self.entries@[a]
                    == pre_removal[if a < victim as int {
                    a
                } else {
                    a + 1
                }] by {}
                assert forall|a: int|
                    0 <= a < self.entries@.len() implies self.entries@[a].last_access
                    > evicted.last_access by {
                    let src: int = if a < victim as int {
                        a
                    } else {
                        a + 1
                    };
                    assert(self.entries@[a] == pre_removal[src]);
                    assert(pre_removal[src].last_access >= evicted.last_access);
                    if src != victim as int {
                        assert(pre_removal[src].last_access != evicted.last_access);
                    }
                }
                assert(!spec_has_key(self.entries@, evicted.key@)) by {
                    if spec_has_key(self.entries@, evicted.key@) {
                        let w = choose|w: int|
                            0 <= w < self.entries@.len() && self.entries@[w].key@ == evicted.key@;
                        let src: int = if w < victim as int {
                            w
                        } else {
                            w + 1
                        };
                        assert(pre_removal[src].key@ == pre_removal[victim as int].key@);
                        assert(src != victim as int);
                    }
                }
                // the evicted entry stood in the cache before the insert
                assert(exists|j: int| 0 <= j < pre.len() && pre[j] == evicted);
                // everything previously evicted is at least as old as this victim
                assert forall|j: int|
                    0 <= j < pre.len() && !spec_has_key(self.entries@, pre[j].key@) implies pre[
                    j
                ].last_access <= evicted.last_access by {
                    if pre[j].key@ == evicted.key@ {
                        let e = choose|e: int| 0 <= e < pre.len() && pre[e] == evicted;
                        assert(pre[j] == pre[e]) by {
                            if j != e {
                                assert(pre[j].key@ != pre[e].key@) by {
                                    assert(forall|a: int, b: int|
                                        0 <= a < pre.len() && 0 <= b < pre.len() && a != b
                                            ==> pre[a].key@ != pre[b].key@);
                                }
                            }
                        }
                    } else {
                        // pre[j] was already absent before this eviction
                        assert(!spec_has_key(pre_removal, pre[j].key@)) by {
                            if spec_has_key(pre_removal, pre[j].key@) {
                                let w = choose|w: int|
                                    0 <= w < pre_removal.len() && pre_removal[w].key@
                                        == pre[j].key@;
                                assert(w != victim as int);
                                let dst: int = if w < victim as int {
                                    w
                                } else {
                                    w - 1
                                };
                                assert(self.entries@[dst] == pre_removal[w]);
                            }
                        }
                        match prev_evicted {
                            None => {
                                assert(spec_has_key(pre_removal, pre[j].key@));
                            },
                            Some(y) => {
                                assert(pre[j].last_access <= y.last_access);
                                assert(evicted.last_access > y.last_access);
                            },
                        }
                    }
                }
                assert(spec_has_key(self.entries@, new_entry.key@)) by {
                    let n = choose|n: int|
                        0 <= n < pre_removal.len() && pre_removal[n].key@ == new_entry.key@;
                    let dst: int = if n < victim as int {
                        n
                    } else {
                        n - 1
                    };
                    assert(self.entries@[dst] == pre_removal[n]);
                }
                let w = choose|w: int|
                    0 <= w < self.entries@.len() && self.entries@[w].key@ == new_entry.key@;
                assert(self.entries@[w] == new_entry) by {
                    let src: int = if w < victim as int {
                        w
                    } else {
                        w + 1
                    };
                    assert(self.entries@[w] == pre_removal[src]);
                    let n = choose|n: int|
                        0 <= n < pre_removal.len() && pre_removal[n].key@ == new_entry.key@;
                    assert(pre_removal[n] == new_entry);
                    assert(src == n);
                }
            }
        }
        proof {
            lemma_size_sum_nonneg(self.entries@);
            if self.entries@.len() == 1 && wide > self.budget_bytes as u128 {
                assert(size_sum(self.entries@) == self.entries@[0].size + size_sum(
                    self.entries@.drop_first(),
                ));
                assert(size_sum(self.entries@.drop_first()) == 0);
                assert(self.entries@[0] == new_entry);
            }
        }
    }
}

/// The cache invariant bounds residency: in any well-formed cache — and
/// every cache operation returns a well-formed cache — the total resident
/// byte size fits the budget, except when a single entry that itself
/// exceeds the budget stands alone.
pub proof fn lemma_budget_bound(c: AssetCache)
    requires
        c.wf(),
    ensures
        c.spec_total() <= c.spec_budget() || (c.spec_entries().len() == 1 && c.spec_entries()[0].size
            > c.spec_budget()),
{
}

/// A well-formed cache retains at most one resource instance per key: two
/// resident entries holding the same key are the same entry.
pub proof fn lemma_one_instance_per_key(c: AssetCache, i: int, j: int)
    requires
        c.wf(),
        0 <= i < c.spec_entries().len(),
        0 <= j < c.spec_entries().len(),
        c.spec_entries()[i].key@ == c.spec_entries()[j].key@,
    ensures
        i == j,
{
}

proof fn lemma_size_sum_take_bound(s: Seq<CacheEntry>, n: int)
    requires
        0 <= n <= s.len(),
    ensures
        size_sum(s.take(n)) <= size_sum(s),
    decreases s.len() - n,
{
    if n == s.len() {
        assert(s.take(n) =~= s);
    } else {
        assert(s.take(n + 1).drop_last() =~= s.take(n));
        assert(s.take(n + 1)[n] == s[n]);
        lemma_size_sum_take_bound(s, n + 1);
        lemma_size_sum_drop_last(s.take(n + 1));
    }
}

proof fn lemma_size_sum_drop_last(s: Seq<CacheEntry>)
    requires
        s.len() >= 1,
    ensures
        size_sum(s) == size_sum(s.drop_last()) + s[s.len() - 1].size,
{
    assert(s.drop_last().push(s[s.len() - 1]) =~= s);
    lemma_size_sum_push(s.drop_last(), s[s.len() - 1]);
}

proof fn lemma_size_sum_update_same_size(pre: Seq<CacheEntry>, post: Seq<CacheEntry>, i: int)
    requires
        0 <= i < pre.len(),
        post.len() == pre.len(),
        post[i].size == pre[i].size,
        forall|j: int| 0 <= j < pre.len() && j != i ==> post[j] == pre[j],
    ensures
        size_sum(post) == size_sum(pre),
    decreases pre.len(),
{
    if i == 0 {
        assert forall|j: int|
            0 <= j < pre.drop_first().len() implies post.drop_first()[j] == pre.drop_first()[j] by {
            assert(post.drop_first()[j] == post[j + 1]);
        }
        assert(post.drop_first() =~= pre.drop_first());
    } else {
        assert(post[0] == pre[0]);
        lemma_size_sum_update_same_size(pre.drop_first(), post.drop_first(), i - 1);
    }
}

} // verus!
