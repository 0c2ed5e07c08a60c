//! A key→value store with per-entry expiry: the one freshness mechanism the
//! resolvers rely on.
//!
//! An entry written at time `t` with time-to-live `ttl` is returned for any
//! read strictly before `t + ttl` and treated as absent from then on; expiry
//! is the only removal mechanism. Time is an argument everywhere, so the
//! store itself is pure: the caller supplies the clock reading.

use crate::text::str_eq;
use vstd::prelude::*;

verus! {

/// Whether an entry written at `inserted` is still alive at `now` under
/// time-to-live `ttl`.
pub open spec fn fresh_at(inserted: u64, ttl: u64, now: u64) -> bool {
    (now as int) < inserted + ttl
}

/// What a read of `key` at `now` returns from a store with contents `m` and
/// time-to-live `ttl`: the stored value iff the key is present and fresh.
pub open spec fn spec_lookup<V>(
    m: Map<Seq<char>, (V, u64)>,
    ttl: u64,
    key: Seq<char>,
    now: u64,
) -> Option<V> {
    if m.contains_key(key) && fresh_at(m[key].1, ttl, now) {
        Some(m[key].0)
    } else {
        None
    }
}

/// A value stored at time `t` is returned unchanged by any read before
/// `t + ttl` and is treated as absent by any read at or after `t + ttl`,
/// whatever the store held before.
pub proof fn lemma_ttl_window<V>(
    m: Map<Seq<char>, (V, u64)>,
    ttl: u64,
    key: Seq<char>,
    value: V,
    t: u64,
    t2: u64,
)
    ensures
        (t2 as int) < t + ttl ==> spec_lookup(m.insert(key, (value, t)), ttl, key, t2) == Some(
            value,
        ),
        (t2 as int) >= t + ttl ==> spec_lookup(m.insert(key, (value, t)), ttl, key, t2) is None,
{
}

/// Reads of other keys are untouched by a write.
pub proof fn lemma_ttl_other_keys<V>(
    m: Map<Seq<char>, (V, u64)>,
    ttl: u64,
    key: Seq<char>,
    other: Seq<char>,
    value: V,
    t: u64,
    t2: u64,
)
    requires
        key != other,
    ensures
        spec_lookup(m.insert(key, (value, t)), ttl, other, t2) == spec_lookup(m, ttl, other, t2),
{
}

struct CacheEntry<V> {
    key: String,
    value: V,
    inserted: u64,
}

/// The association represented by a sequence of entries: later entries win,
/// though the store below keeps keys unique.
spec fn entries_map<V>(s: Seq<CacheEntry<V>>) -> Map<Seq<char>, (V, u64)>
    decreases s.len(),
{
    if s.len() == 0 {
        Map::empty()
    } else {
        entries_map(s.drop_last()).insert(
            s.last().key@,
            (s.last().value, s.last().inserted),
        )
    }
}

spec fn unique_keys<V>(s: Seq<CacheEntry<V>>) -> bool {
    forall|i: int, j: int| 0 <= i < j < s.len() ==> s[i].key@ != s[j].key@
}

proof fn lemma_entries_map_contains<V>(s: Seq<CacheEntry<V>>, k: Seq<char>)
    ensures
        entries_map(s).contains_key(k) <==> exists|i: int|
            0 <= i < s.len() && #[trigger] s[i].key@ == k,
    decreases s.len(),
{
    if s.len() > 0 {
        lemma_entries_map_contains(s.drop_last(), k);
        if s.last().key@ == k {
            assert(s[s.len() - 1].key@ == k);
        } else if exists|i: int| 0 <= i < s.len() && #[trigger] s[i].key@ == k {
            let i = choose|i: int| 0 <= i < s.len() && #[trigger] s[i].key@ == k;
            assert(s.drop_last()[i].key@ == k);
        }
    }
}

proof fn lemma_entries_map_index<V>(s: Seq<CacheEntry<V>>, i: int)
    requires
        unique_keys(s),
        0 <= i < s.len(),
    ensures
        entries_map(s).contains_key(s[i].key@),
        entries_map(s)[s[i].key@] == (s[i].value, s[i].inserted),
    decreases s.len(),
{
    if i < s.len() - 1 {
        lemma_entries_map_index(s.drop_last(), i);
        assert(s.drop_last()[i] == s[i]);
        assert(s[i].key@ != s.last().key@);
    }
}

proof fn lemma_entries_map_update<V>(s: Seq<CacheEntry<V>>, i: int, e: CacheEntry<V>)
    requires
        unique_keys(s),
        0 <= i < s.len(),
        s[i].key@ == e.key@,
    ensures
        entries_map(s.update(i, e)) == entries_map(s).insert(e.key@, (e.value, e.inserted)),
    decreases s.len(),
{
    if i == s.len() - 1 {
        assert(s.update(i, e).drop_last() =~= s.drop_last());
        assert(entries_map(s.update(i, e)) =~= entries_map(s).insert(
            e.key@,
            (e.value, e.inserted),
        ));
    } else {
        lemma_entries_map_update(s.drop_last(), i, e);
        assert(s.update(i, e).drop_last() =~= s.drop_last().update(i, e));
        assert(s.update(i, e).last() == s.last());
        assert(s[i].key@ != s.last().key@);
        assert(entries_map(s.update(i, e)) =~= entries_map(s).insert(
            e.key@,
            (e.value, e.inserted),
        ));
    }
}

/// The TTL cache store: a map from string keys to values, each entry carrying
/// the time it was written.
///
/// The repository resolver keys one of these by repository name, with a
/// three-minute window; the now-playing answer, which has no key, lives in
/// the single-slot store below with a two-second window.
pub struct TtlCache<V> {
    entries: Vec<CacheEntry<V>>,
    ttl: u64,
}

impl<V> View for TtlCache<V> {
    type V = Map<Seq<char>, (V, u64)>;

    closed spec fn view(&self) -> Map<Seq<char>, (V, u64)> {
        entries_map(self.entries@)
    }
}

impl<V> TtlCache<V> {
    #[verifier::type_invariant]
    spec fn wf(&self) -> bool {
        unique_keys(self.entries@)
    }

    /// The configured time-to-live, in the same unit as the supplied clock
    /// readings (seconds here).
    pub closed spec fn ttl(&self) -> u64 {
        self.ttl
    }

    /// An empty store with the given time-to-live.
    pub fn new(ttl: u64) -> (r: Self)
        ensures
            r@ == Map::<Seq<char>, (V, u64)>::empty(),
            r.ttl() == ttl,
    {
        TtlCache { entries: Vec::new(), ttl }
    }

    /// Returns the entry under `key` iff one is present and still fresh at
    /// `now`; an expired entry behaves exactly like a missing one.
    pub fn get<'a>(&'a self, key: &str, now: u64) -> (r: Option<&'a V>)
        ensures
            match r {
                Some(v) => spec_lookup(self@, self.ttl(), key@, now) == Some(*v),
                None => spec_lookup(self@, self.ttl(), key@, now) is None,
            },
    {
        proof {
            use_type_invariant(self);
        }
        let n = self.entries.len();
        for i in 0..n
            invariant
                n == self.entries@.len(),
                unique_keys(self.entries@),
                forall|j: int| 0 <= j < i ==> self.entries@[j].key@ != key@,
        {
            if str_eq(self.entries[i].key.as_str(), key) {
                proof {
                    lemma_entries_map_index(self.entries@, i as int);
                }
                let inserted = self.entries[i].inserted;
                let alive = match inserted.checked_add(self.ttl) {
                    Some(deadline) => now < deadline,
                    None => true,
                };
                if alive {
                    return Some(&self.entries[i].value);
                } else {
                    return None;
                }
            }
        }
        proof {
            lemma_entries_map_contains(self.entries@, key@);
        }
        None
    }

    fn find_index(entries: &Vec<CacheEntry<V>>, key: &str) -> (r: Option<usize>)
        ensures
            match r {
                Some(i) => i < entries@.len() && entries@[i as int].key@ == key@,
                None => forall|j: int| 0 <= j < entries@.len() ==> entries@[j].key@ != key@,
            },
    {
        let n = entries.len();
        for i in 0..n
            invariant
                n == entries@.len(),
                forall|j: int| 0 <= j < i ==> entries@[j].key@ != key@,
        {
            if str_eq(entries[i].key.as_str(), key) {
                return Some(i);
            }
        }
        None
    }

    /// Inserts or overwrites the entry under `key` with a write time of
    /// `now`; no other key is touched.
    pub fn put(&mut self, key: &str, value: V, now: u64)
        ensures
            final(self)@ == old(self)@.insert(key@, (value, now)),
            final(self).ttl() == old(self).ttl(),
    {
        proof {
            use_type_invariant(&*self);
        }
        let mut entries: Vec<CacheEntry<V>> = Vec::new();
        core::mem::swap(&mut entries, &mut self.entries);
        let entry = CacheEntry { key: key.to_owned(), value, inserted: now };
        match Self::find_index(&entries, key) {
            Some(i) => {
                proof {
                    lemma_entries_map_update(entries@, i as int, entry);
                    assert(forall|p: int, q: int|
                        0 <= p < q < entries@.len() ==> entries@.update(i as int, entry)[p].key@
                            != entries@.update(i as int, entry)[q].key@);
                }
                *vstd::std_specs::vec::vec_index_mut(&mut entries, i) = entry;
            },
            None => {
                proof {
                    lemma_entries_map_contains(entries@, key@);
                    assert(entries@.push(entry).drop_last() =~= entries@);
                }
                entries.push(entry);
            },
        }
        core::mem::swap(&mut entries, &mut self.entries);
    }
}

/// What a read at `now` returns from a single-entry store holding `slot`:
/// the stored value iff one is present and fresh.
pub open spec fn spec_slot_lookup<T>(slot: Option<(T, u64)>, ttl: u64, now: u64) -> Option<T> {
    match slot {
        Some(e) => if fresh_at(e.1, ttl, now) {
            Some(e.0)
        } else {
            None
        },
        None => None,
    }
}

/// The slot analogue of [`lemma_ttl_window`]: a value stored at `t` is
/// returned unchanged before `t + ttl` and treated as absent from then on.
pub proof fn lemma_slot_window<T>(value: T, ttl: u64, t: u64, t2: u64)
    ensures
        (t2 as int) < t + ttl ==> spec_slot_lookup(Some((value, t)), ttl, t2) == Some(value),
        (t2 as int) >= t + ttl ==> spec_slot_lookup(Some((value, t)), ttl, t2) is None,
{
}

/// A TTL store with a single global slot, for answers that are not keyed by
/// anything — the site has exactly one "what's playing" answer.
pub struct TtlSlot<T> {
    entry: Option<(T, u64)>,
    ttl: u64,
}

impl<T> View for TtlSlot<T> {
    type V = Option<(T, u64)>;

    closed spec fn view(&self) -> Option<(T, u64)> {
        self.entry
    }
}

impl<T> TtlSlot<T> {
    /// The configured time-to-live, in the same unit as the supplied clock
    /// readings (seconds here).
    pub closed spec fn ttl(&self) -> u64 {
        self.ttl
    }

    /// An empty slot with the given time-to-live.
    pub fn new(ttl: u64) -> (r: Self)
        ensures
            r@ is None,
            r.ttl() == ttl,
    {
        TtlSlot { entry: None, ttl }
    }

    /// Returns the stored value iff one is present and still fresh at `now`.
    pub fn get<'a>(&'a self, now: u64) -> (r: Option<&'a T>)
        ensures
            match r {
                Some(v) => spec_slot_lookup(self@, self.ttl(), now) == Some(*v),
                None => spec_slot_lookup(self@, self.ttl(), now) is None,
            },
    {
        match &self.entry {
            Some(e) => {
                let alive = match e.1.checked_add(self.ttl) {
                    Some(deadline) => now < deadline,
                    None => true,
                };
                if alive {
                    Some(&e.0)
                } else {
                    None
                }
            },
            None => None,
        }
    }

    /// Overwrites the slot with a write time of `now`.
    pub fn put(&mut self, value: T, now: u64)
        ensures
            final(self)@ == Some((value, now)),
            final(self).ttl() == old(self).ttl(),
    {
        self.entry = Some((value, now));
    }
}

} // verus!
