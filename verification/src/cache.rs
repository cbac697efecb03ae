//! A bounded key-value store with per-entry expiration.
//!
//! Expiration is strict and half-open: an entry is expired once more time
//! than the time-to-live has passed since insertion; exactly at the
//! time-to-live it is still valid.  Insertion first purges every expired
//! entry, then, if occupancy is still at or above the capacity, evicts the
//! entry with the oldest insertion instant (pure insertion-age eviction, not
//! recency of access), then inserts.  A capacity of zero accepts and
//! immediately drops insertions.
//!
//! The store keeps no clock of its own: every operation takes the current
//! instant as a plain number, and its contract holds for every value of it.

use vstd::prelude::*;
use crate::address::Address;

verus! {

/// A cached value together with the instant it was inserted.
#[derive(Debug, Clone)]
pub struct CacheEntry<V> {
    pub value: V,
    pub inserted_at: u64,
}

/// Whether an entry inserted at `inserted_at` has expired by `now` under the
/// time-to-live `ttl`: strictly more than `ttl` has elapsed.
pub open spec fn expired_spec(inserted_at: u64, ttl: u64, now: u64) -> bool {
    now > inserted_at && now - inserted_at > ttl
}

impl<V> CacheEntry<V> {
    /// Wraps a value with its insertion instant.
    pub fn new(value: V, now: u64) -> (r: Self)
        ensures
            r.value == value,
            r.inserted_at == now,
    {
        CacheEntry { value, inserted_at: now }
    }

    /// Whether this entry has expired by `now`.
    pub fn is_expired(&self, ttl: u64, now: u64) -> (r: bool)
        ensures
            r == expired_spec(self.inserted_at, ttl, now),
    {
        now > self.inserted_at && now - self.inserted_at > ttl
    }
}

/// The entries that survive a purge at `now`: exactly those not yet expired.
pub open spec fn purge_spec<V>(
    s: Seq<(Address, CacheEntry<V>)>,
    ttl: u64,
    now: u64,
) -> Seq<(Address, CacheEntry<V>)> {
    s.filter(|e: (Address, CacheEntry<V>)| !expired_spec(e.1.inserted_at, ttl, now))
}

/// The index of the first entry with the oldest insertion instant.
pub open spec fn oldest_index<V>(s: Seq<(Address, CacheEntry<V>)>) -> int
    decreases s.len(),
{
    if s.len() <= 1 {
        0
    } else {
        let m = oldest_index(s.drop_last());
        if s.last().1.inserted_at < s[m].1.inserted_at {
            s.len() - 1
        } else {
            m
        }
    }
}

/// The index of the first entry whose key is `k`, or -1 if there is none.
pub open spec fn find_key<V>(s: Seq<(Address, CacheEntry<V>)>, k: Seq<u8>) -> int
    decreases s.len(),
{
    if s.len() == 0 {
        -1
    } else if s[0].0@ == k {
        0
    } else {
        let r = find_key(s.drop_first(), k);
        if r == -1 {
            -1
        } else {
            r + 1
        }
    }
}

/// What an insertion leaves behind: purge, then evict the oldest entry if the
/// store is still full, then insert or overwrite (unless the capacity is
/// zero, in which case the new entry is dropped at once).
pub open spec fn insert_spec<V>(
    s: Seq<(Address, CacheEntry<V>)>,
    key: Address,
    value: V,
    ttl: u64,
    now: u64,
    max: nat,
) -> Seq<(Address, CacheEntry<V>)> {
    let purged = purge_spec(s, ttl, now);
    let room = if purged.len() >= max && purged.len() > 0 {
        purged.remove(oldest_index(purged))
    } else {
        purged
    };
    if max == 0 {
        room
    } else {
        let e = (key, CacheEntry { value, inserted_at: now });
        let i = find_key(room, key@);
        if i == -1 {
            room.push(e)
        } else {
            room.update(i, e)
        }
    }
}

/// A bounded store of values keyed by address, with per-entry expiration.
#[derive(Debug, Clone)]
pub struct Cache<V> {
    pub entries: Vec<(Address, CacheEntry<V>)>,
    pub ttl: u64,
    pub max_size: usize,
}

/// Occupancy and expiry statistics of a store at one instant.
#[derive(Debug, Clone, Copy, PartialEq, Eq, Structural)]
pub struct CacheStats {
    pub size: usize,
    pub capacity: usize,
    pub expired_entries: usize,
}

impl<V> Cache<V> {
    /// Well-formedness: keys are unique and occupancy never exceeds the
    /// capacity.
    pub open spec fn wf(&self) -> bool {
        &&& self.entries@.len() <= self.max_size
        &&& forall|i: int, j: int|
            0 <= i < j < self.entries@.len() ==> (#[trigger] self.entries@[i]).0@ != (
            #[trigger] self.entries@[j]).0@
    }

    /// An empty store with the given time-to-live and capacity.
    pub fn new(ttl: u64, max_size: usize) -> (r: Self)
        ensures
            r.wf(),
            r.entries@.len() == 0,
            r.ttl == ttl,
            r.max_size == max_size,
    {
        Cache { entries: Vec::new(), ttl, max_size }
    }

    /// Looks a key up at instant `now`.  An expired entry is never returned,
    /// however recently it expired; a live entry always is.
    pub fn get(&self, key: &Address, now: u64) -> (r: Option<&V>)
        requires
            self.wf(),
        ensures
            match r {
                Some(v) => exists|i: int|
                    0 <= i < self.entries@.len() && (#[trigger] self.entries@[i]).0@ == key@
                        && !expired_spec(self.entries@[i].1.inserted_at, self.ttl, now) && *v
                        == self.entries@[i].1.value,
                None => forall|i: int|
                    0 <= i < self.entries@.len() && (#[trigger] self.entries@[i]).0@ == key@
                        ==> expired_spec(self.entries@[i].1.inserted_at, self.ttl, now),
            },
    {
        let n = self.entries.len();
        let mut i: usize = 0;
        while i < n
            invariant
                self.wf(),
                n == self.entries@.len(),
                0 <= i <= n,
                forall|j: int| 0 <= j < i ==> (#[trigger] self.entries@[j]).0@ != key@,
            decreases n - i,
        {
            if self.entries[i].0.eq_addr(key) {
                if self.entries[i].1.is_expired(self.ttl, now) {
                    return None;
                }
                return Some(&self.entries[i].1.value);
            }
            i += 1;
        }
        None
    }

    /// Inserts a value at instant `now`: purge, evict-oldest if still full,
    /// then insert or overwrite.  Occupancy never ends above the capacity.
    pub fn insert(&mut self, key: Address, value: V, now: u64)
        requires
            old(self).wf(),
        ensures
            final(self).wf(),
            final(self).ttl == old(self).ttl,
            final(self).max_size == old(self).max_size,
            final(self).entries@ == insert_spec(
                old(self).entries@,
                key,
                value,
                old(self).ttl,
                now,
                old(self).max_size as nat,
            ),
            old(self).max_size > 0 ==> exists|i: int|
                0 <= i < final(self).entries@.len() && (#[trigger] final(self).entries@[i]).0@
                    == key@ && final(self).entries@[i].1.value == value
                    && final(self).entries@[i].1.inserted_at == now,
    {
        let ttl = self.ttl;
        let max_size = self.max_size;
        let ghost orig = self.entries@;

        // Purge expired entries, preserving order.
        let mut source: Vec<(Address, CacheEntry<V>)> = Vec::new();
        core::mem::swap(&mut source, &mut self.entries);
        let ghost total = source@.len();
        let mut kept: Vec<(Address, CacheEntry<V>)> = Vec::new();
        proof {
            assert(orig.take(0) =~= Seq::<(Address, CacheEntry<V>)>::empty());
            assert(purge_spec(orig.take(0), ttl, now) =~= Seq::<(
                Address,
                CacheEntry<V>,
            )>::empty()) by {
                reveal(Seq::filter);
            }
            assert(orig.skip(0) =~= orig);
        }
        while source.len() > 0
            invariant
                source@.len() <= total,
                total == orig.len(),
                source@ == orig.skip((total - source@.len()) as int),
                kept@ == purge_spec(orig.take((total - source@.len()) as int), ttl, now),
                kept@.len() <= total - source@.len(),
            decreases source@.len(),
        {
            let ghost k = (total - source@.len()) as int;
            let e = source.remove(0);
            proof {
                assert(e == orig[k]);
                assert(source@ =~= orig.skip(k + 1));
                lemma_purge_take_step(orig, k, ttl, now);
            }
            if !e.1.is_expired(ttl, now) {
                kept.push(e);
            }
        }
        proof {
            assert(orig.take(total as int) =~= orig);
        }

        // If still at or above capacity, evict the entry inserted first.
        if kept.len() >= max_size && kept.len() > 0 {
            let n = kept.len();
            let mut m: usize = 0;
            let mut i: usize = 1;
            proof {
                assert(kept@.take(1).len() == 1);
                assert(oldest_index(kept@.take(1)) == 0);
            }
            while i < n
                invariant
                    n == kept@.len(),
                    1 <= i <= n,
                    0 <= m < i,
                    m == oldest_index(kept@.take(i as int)),
                decreases n - i,
            {
                proof {
                    assert(kept@.take(i + 1).drop_last() =~= kept@.take(i as int));
                    assert(kept@.take(i + 1).last() == kept@[i as int]);
                }
                if kept[i].1.inserted_at < kept[m].1.inserted_at {
                    m = i;
                }
                i += 1;
            }
            proof {
                assert(kept@.take(n as int) =~= kept@);
            }
            kept.remove(m);
        }

        // Insert or overwrite, unless the store holds nothing at all.
        if max_size > 0 {
            let ghost room = kept@;
            let entry = (key, CacheEntry { value, inserted_at: now });
            let n = kept.len();
            let mut i: usize = 0;
            let mut found = false;
            while i < n && !found
                invariant
                    n == kept@.len(),
                    kept@ == room,
                    0 <= i <= n,
                    !found ==> forall|j: int| 0 <= j < i ==> (#[trigger] room[j]).0@ != key@,
                    found ==> i < n && room[i as int].0@ == key@ && (forall|j: int|
                        0 <= j < i ==> (#[trigger] room[j]).0@ != key@),
                decreases n - i + (if found { 0int } else { 1int }),
            {
                if kept[i].0.eq_addr(&key) {
                    found = true;
                } else {
                    i += 1;
                }
            }
            proof {
                if found {
                    lemma_find_key_first(room, key@, i as int);
                } else {
                    lemma_find_key_none(room, key@);
                }
            }
            if found {
                kept.set(i, entry);
                assert(kept@[i as int] == entry);
            } else {
                kept.push(entry);
                assert(kept@[kept@.len() - 1] == entry);
            }
            assert(exists|j: int|
                0 <= j < kept@.len() && (#[trigger] kept@[j]).0@ == key@ && kept@[j].1.value
                    == value && kept@[j].1.inserted_at == now);
        }
        self.entries = kept;

        proof {
            let result = insert_spec(orig, key, value, ttl, now, max_size as nat);
            assert(self.entries@ =~= result);
            lemma_insert_wf(orig, key, value, ttl, now, max_size as nat, old(self).max_size);
        }
    }

    /// Removes every entry.
    pub fn clear(&mut self)
        ensures
            final(self).wf(),
            final(self).entries@.len() == 0,
            final(self).ttl == old(self).ttl,
            final(self).max_size == old(self).max_size,
    {
        self.entries = Vec::new();
    }

    /// Occupancy, capacity and the count of entries already expired at `now`
    /// but not yet purged.  The expired count is a diagnostic: the same
    /// entries are excluded by `get` and dropped by the next `insert`.
    pub fn stats(&self, now: u64) -> (r: CacheStats)
        ensures
            r.size == self.entries@.len(),
            r.capacity == self.max_size,
            r.expired_entries == expired_count(self.entries@, self.ttl, now),
    {
        let n = self.entries.len();
        let mut count: usize = 0;
        let mut i: usize = 0;
        proof {
            assert(self.entries@.take(0) =~= Seq::<(Address, CacheEntry<V>)>::empty());
            assert(expired_count(self.entries@.take(0), self.ttl, now) == 0) by {
                reveal(Seq::filter);
            }
        }
        while i < n
            invariant
                n == self.entries@.len(),
                0 <= i <= n,
                count <= i,
                count == expired_count(self.entries@.take(i as int), self.ttl, now),
            decreases n - i,
        {
            proof {
                lemma_expired_count_take_step(self.entries@, i as int, self.ttl, now);
            }
            if self.entries[i].1.is_expired(self.ttl, now) {
                count += 1;
            }
            i += 1;
        }
        proof {
            assert(self.entries@.take(n as int) =~= self.entries@);
        }
        CacheStats { size: n, capacity: self.max_size, expired_entries: count }
    }
}

/// How many entries of `s` are expired at `now`.
pub open spec fn expired_count<V>(s: Seq<(Address, CacheEntry<V>)>, ttl: u64, now: u64) -> nat {
    s.filter(|e: (Address, CacheEntry<V>)| expired_spec(e.1.inserted_at, ttl, now)).len()
}

proof fn lemma_purge_take_step<V>(s: Seq<(Address, CacheEntry<V>)>, i: int, ttl: u64, now: u64)
    requires
        0 <= i < s.len(),
    ensures
        purge_spec(s.take(i + 1), ttl, now) == if !expired_spec(s[i].1.inserted_at, ttl, now) {
            purge_spec(s.take(i), ttl, now).push(s[i])
        } else {
            purge_spec(s.take(i), ttl, now)
        },
{
    reveal(Seq::filter);
    assert(s.take(i + 1).drop_last() =~= s.take(i));
    assert(s.take(i + 1).last() == s[i]);
}

proof fn lemma_expired_count_take_step<V>(
    s: Seq<(Address, CacheEntry<V>)>,
    i: int,
    ttl: u64,
    now: u64,
)
    requires
        0 <= i < s.len(),
    ensures
        expired_count(s.take(i + 1), ttl, now) == if expired_spec(s[i].1.inserted_at, ttl, now) {
            expired_count(s.take(i), ttl, now) + 1
        } else {
            expired_count(s.take(i), ttl, now)
        },
{
    reveal(Seq::filter);
    assert(s.take(i + 1).drop_last() =~= s.take(i));
    assert(s.take(i + 1).last() == s[i]);
}

/// The first entry with the oldest insertion instant is indeed no younger
/// than any entry: what `insert` evicts when the store is full is an entry
/// with the earliest insertion instant.
pub proof fn lemma_oldest_index_minimal<V>(s: Seq<(Address, CacheEntry<V>)>)
    requires
        s.len() > 0,
    ensures
        0 <= oldest_index(s) < s.len(),
        forall|i: int|
            0 <= i < s.len() ==> s[oldest_index(s)].1.inserted_at <= (
            #[trigger] s[i]).1.inserted_at,
    decreases s.len(),
{
    if s.len() > 1 {
        lemma_oldest_index_minimal(s.drop_last());
        assert(forall|i: int| 0 <= i < s.len() - 1 ==> s.drop_last()[i] == s[i]);
    }
}

proof fn lemma_find_key_first<V>(s: Seq<(Address, CacheEntry<V>)>, k: Seq<u8>, i: int)
    requires
        0 <= i < s.len(),
        s[i].0@ == k,
        forall|j: int| 0 <= j < i ==> (#[trigger] s[j]).0@ != k,
    ensures
        find_key(s, k) == i,
    decreases s.len(),
{
    if i > 0 {
        lemma_find_key_first(s.drop_first(), k, i - 1);
        assert(forall|j: int| 0 <= j < s.len() - 1 ==> s.drop_first()[j] == s[j + 1]);
    }
}

proof fn lemma_find_key_none<V>(s: Seq<(Address, CacheEntry<V>)>, k: Seq<u8>)
    requires
        forall|j: int| 0 <= j < s.len() ==> (#[trigger] s[j]).0@ != k,
    ensures
        find_key(s, k) == -1,
    decreases s.len(),
{
    if s.len() > 0 {
        assert(forall|j: int| 0 <= j < s.len() - 1 ==> s.drop_first()[j] == s[j + 1]);
        lemma_find_key_none(s.drop_first(), k);
    }
}

proof fn lemma_purge_subset<V>(s: Seq<(Address, CacheEntry<V>)>, ttl: u64, now: u64)
    ensures
        purge_spec(s, ttl, now).len() <= s.len(),
        forall|i: int|
            0 <= i < purge_spec(s, ttl, now).len() ==> exists|j: int|
                0 <= j < s.len() && #[trigger] purge_spec(s, ttl, now)[i] == s[j],
    decreases s.len(),
{
    reveal(Seq::filter);
    if s.len() > 0 {
        lemma_purge_subset(s.drop_last(), ttl, now);
        let p = purge_spec(s, ttl, now);
        let psub = purge_spec(s.drop_last(), ttl, now);
        assert(forall|j: int| 0 <= j < s.len() - 1 ==> s.drop_last()[j] == s[j]);
        assert forall|i: int| 0 <= i < p.len() implies exists|j: int|
            0 <= j < s.len() && #[trigger] p[i] == s[j] by {
            if i < psub.len() {
                assert(p[i] == psub[i]);
                let j = choose|j: int| 0 <= j < s.len() - 1 && psub[i] == s.drop_last()[j];
                assert(p[i] == s[j]);
            } else {
                assert(p[i] == s[s.len() - 1]);
            }
        }
    }
}

proof fn lemma_distinct_remove<V>(s: Seq<(Address, CacheEntry<V>)>, m: int)
    requires
        0 <= m < s.len(),
        forall|i: int, j: int|
            0 <= i < j < s.len() ==> (#[trigger] s[i]).0@ != (#[trigger] s[j]).0@,
    ensures
        forall|i: int, j: int|
            0 <= i < j < s.remove(m).len() ==> (#[trigger] s.remove(m)[i]).0@ != (
            #[trigger] s.remove(m)[j]).0@,
{
    let r = s.remove(m);
    assert forall|i: int, j: int| 0 <= i < j < r.len() implies (#[trigger] r[i]).0@ != (
    #[trigger] r[j]).0@ by {
        let i2 = if i < m {
            i
        } else {
            i + 1
        };
        let j2 = if j < m {
            j
        } else {
            j + 1
        };
        assert(r[i] == s[i2] && r[j] == s[j2]);
    }
}

proof fn lemma_purge_distinct<V>(s: Seq<(Address, CacheEntry<V>)>, ttl: u64, now: u64)
    requires
        forall|i: int, j: int|
            0 <= i < j < s.len() ==> (#[trigger] s[i]).0@ != (#[trigger] s[j]).0@,
    ensures
        forall|i: int, j: int|
            0 <= i < j < purge_spec(s, ttl, now).len() ==> (#[trigger] purge_spec(s, ttl, now)[i]).0@
                != (#[trigger] purge_spec(s, ttl, now)[j]).0@,
    decreases s.len(),
{
    reveal(Seq::filter);
    if s.len() > 0 {
        assert(forall|j: int| 0 <= j < s.len() - 1 ==> s.drop_last()[j] == s[j]);
        lemma_purge_distinct(s.drop_last(), ttl, now);
        let p = purge_spec(s, ttl, now);
        let psub = purge_spec(s.drop_last(), ttl, now);
        lemma_purge_subset(s.drop_last(), ttl, now);
        assert forall|i: int, j: int| 0 <= i < j < p.len() implies (#[trigger] p[i]).0@ != (
        #[trigger] p[j]).0@ by {
            if j < psub.len() {
            } else {
                assert(p[j] == s[s.len() - 1]);
                assert(p[i] == psub[i]);
                let w = choose|w: int| 0 <= w < s.len() - 1 && psub[i] == s.drop_last()[w];
                assert(p[i] == s[w]);
            }
        }
    }
}

proof fn lemma_insert_wf<V>(
    s: Seq<(Address, CacheEntry<V>)>,
    key: Address,
    value: V,
    ttl: u64,
    now: u64,
    max: nat,
    max_exec: usize,
)
    requires
        max == max_exec as nat,
        s.len() <= max,
        forall|i: int, j: int|
            0 <= i < j < s.len() ==> (#[trigger] s[i]).0@ != (#[trigger] s[j]).0@,
    ensures
        insert_spec(s, key, value, ttl, now, max).len() <= max,
        forall|i: int, j: int|
            0 <= i < j < insert_spec(s, key, value, ttl, now, max).len() ==> (
            #[trigger] insert_spec(s, key, value, ttl, now, max)[i]).0@ != (
            #[trigger] insert_spec(s, key, value, ttl, now, max)[j]).0@,
{
    let purged = purge_spec(s, ttl, now);
    lemma_purge_subset(s, ttl, now);
    lemma_purge_distinct(s, ttl, now);
    let room = if purged.len() >= max && purged.len() > 0 {
        lemma_oldest_index_minimal(purged);
        purged.remove(oldest_index(purged))
    } else {
        purged
    };
    if purged.len() >= max && purged.len() > 0 {
        lemma_distinct_remove(purged, oldest_index(purged));
    }
    if max > 0 {
        let e = (key, CacheEntry { value, inserted_at: now });
        let i = find_key(room, key@);
        lemma_find_key_bounds(room, key@);
        let result = insert_spec(s, key, value, ttl, now, max);
        if i == -1 {
            assert(result == room.push(e));
            lemma_find_key_all_differ(room, key@);
        } else {
            assert(result == room.update(i, e));
        }
    }
}

proof fn lemma_find_key_bounds<V>(s: Seq<(Address, CacheEntry<V>)>, k: Seq<u8>)
    ensures
        find_key(s, k) == -1 || (0 <= find_key(s, k) < s.len() && s[find_key(s, k)].0@ == k),
    decreases s.len(),
{
    if s.len() > 0 && s[0].0@ != k {
        lemma_find_key_bounds(s.drop_first(), k);
        assert(forall|j: int| 0 <= j < s.len() - 1 ==> s.drop_first()[j] == s[j + 1]);
    }
}

proof fn lemma_find_key_all_differ<V>(s: Seq<(Address, CacheEntry<V>)>, k: Seq<u8>)
    requires
        find_key(s, k) == -1,
    ensures
        forall|j: int| 0 <= j < s.len() ==> (#[trigger] s[j]).0@ != k,
    decreases s.len(),
{
    if s.len() > 0 {
        assert(s[0].0@ != k);
        lemma_find_key_bounds(s.drop_first(), k);
        lemma_find_key_all_differ(s.drop_first(), k);
        assert(forall|j: int| 0 <= j < s.len() - 1 ==> s.drop_first()[j] == s[j + 1]);
        assert forall|j: int| 0 <= j < s.len() implies (#[trigger] s[j]).0@ != k by {
            if j > 0 {
                assert(s.drop_first()[j - 1] == s[j]);
            }
        }
    }
}

/// The expiry boundary is exclusive above the time-to-live: a value looked up
/// exactly `ttl` after insertion is still valid, one instant later it is
/// expired.
pub proof fn lemma_expiry_boundary(inserted_at: u64, ttl: u64)
    requires
        inserted_at + ttl <= u64::MAX,
    ensures
        !expired_spec(inserted_at, ttl, (inserted_at + ttl) as u64),
        inserted_at + ttl + 1 <= u64::MAX ==> expired_spec(
            inserted_at,
            ttl,
            (inserted_at + ttl + 1) as u64,
        ),
{
}

} // verus!
