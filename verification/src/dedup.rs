//! The bounded set of message identifiers that were already notified,
//! ordered by recency of use.
//!
//! The set is an `lru::LruCache`. Its contents are named by `lru_entries`:
//! the entries from the most recently used to the least recently used.

use vstd::prelude::*;

verus! {

/// How many identifiers the cache remembers.
pub const DEDUP_CAPACITY: usize = 200;

/// Entries of the cache, most recently used first: an identifier and the
/// time at which it was last recorded.
pub type Entries = Seq<(Seq<char>, u64)>;

// ---------------------------------------------------------------------------
// The model: what the operations of an LRU cache do to its entries
// ---------------------------------------------------------------------------

/// Whether some entry has the key.
pub open spec fn holds(entries: Entries, key: Seq<char>) -> bool {
    exists|i: int| 0 <= i < entries.len() && (#[trigger] entries[i]).0 == key
}

/// A position at which the key stands. Where no two entries share a key it
/// is the only one.
pub open spec fn position(entries: Entries, key: Seq<char>) -> int {
    choose|i: int| 0 <= i < entries.len() && (#[trigger] entries[i]).0 == key
}

/// The value recorded for the key.
pub open spec fn value_of(entries: Entries, key: Seq<char>) -> Option<u64> {
    if holds(entries, key) {
        Some(entries[position(entries, key)].1)
    } else {
        None
    }
}

/// No two entries share a key.
pub open spec fn distinct_keys(entries: Entries) -> bool {
    forall|i: int, j: int|
        0 <= i < j < entries.len() ==> (#[trigger] entries[i]).0 != (#[trigger] entries[j]).0
}

/// The entries after a lookup of the key: a key that is present becomes the
/// most recently used.
pub open spec fn touched(entries: Entries, key: Seq<char>) -> Entries {
    if holds(entries, key) {
        let at = position(entries, key);
        seq![entries[at]] + entries.remove(at)
    } else {
        entries
    }
}

/// The entries after the key is recorded with a value in a cache of the
/// given capacity. A key that is present gets the value and becomes the most
/// recently used. A new key is put in front; where the cache is full, the
/// least recently used entry leaves first.
pub open spec fn inserted(entries: Entries, capacity: nat, key: Seq<char>, value: u64) -> Entries {
    if holds(entries, key) {
        seq![(key, value)] + entries.remove(position(entries, key))
    } else if entries.len() == capacity {
        seq![(key, value)] + entries.drop_last()
    } else {
        seq![(key, value)] + entries
    }
}

/// The entries after the key is taken out.
pub open spec fn removed(entries: Entries, key: Seq<char>) -> Entries {
    if holds(entries, key) {
        entries.remove(position(entries, key))
    } else {
        entries
    }
}

proof fn lemma_touched(entries: Entries, key: Seq<char>)
    requires
        distinct_keys(entries),
    ensures
        distinct_keys(touched(entries, key)),
        touched(entries, key).len() == entries.len(),
        forall|k: Seq<char>| holds(touched(entries, key), k) == holds(entries, k),
{
    let after = touched(entries, key);
    if holds(entries, key) {
        let at = position(entries, key);
        let rest = entries.remove(at);
        assert forall|i: int, j: int| 0 <= i < j < after.len() implies (#[trigger] after[i]).0 != (
        #[trigger] after[j]).0 by {
            let src_j = if j - 1 < at { j - 1 } else { j };
            assert(after[j] == entries[src_j]);
            if i == 0 {
                assert(after[i] == entries[at]);
            } else {
                let src_i = if i - 1 < at { i - 1 } else { i };
                assert(after[i] == entries[src_i]);
            }
        }
        assert forall|k: Seq<char>| holds(after, k) == holds(entries, k) by {
            if holds(entries, k) {
                let p = position(entries, k);
                let q = if p == at { 0 } else if p < at { p + 1 } else { p };
                assert(after[q] == entries[p]);
            }
            if holds(after, k) {
                let q = position(after, k);
                let p = if q == 0 { at } else if q - 1 < at { q - 1 } else { q };
                assert(after[q] == entries[p]);
            }
        }
    }
}

proof fn lemma_removed(entries: Entries, key: Seq<char>)
    requires
        distinct_keys(entries),
    ensures
        distinct_keys(removed(entries, key)),
        removed(entries, key).len() <= entries.len(),
        !holds(removed(entries, key), key),
        forall|k: Seq<char>| k != key ==> holds(removed(entries, key), k) == holds(entries, k),
{
    let after = removed(entries, key);
    if holds(entries, key) {
        let at = position(entries, key);
        assert forall|i: int| 0 <= i < after.len() implies #[trigger] after[i] == entries[if i
            < at { i } else { i + 1 }] by {}
        assert forall|i: int, j: int| 0 <= i < j < after.len() implies (#[trigger] after[i]).0 != (
        #[trigger] after[j]).0 by {
            assert(after[i] == entries[if i < at { i } else { i + 1 }]);
            assert(after[j] == entries[if j < at { j } else { j + 1 }]);
        }
        if holds(after, key) {
            let q = position(after, key);
            assert(after[q] == entries[if q < at { q } else { q + 1 }]);
            assert(false);
        }
        assert forall|k: Seq<char>| k != key implies holds(after, k) == holds(entries, k) by {
            if holds(entries, k) {
                let p = position(entries, k);
                let q = if p < at { p } else { p - 1 };
                assert(after[q] == entries[p]);
            }
            if holds(after, k) {
                let q = position(after, k);
                assert(after[q] == entries[if q < at { q } else { q + 1 }]);
            }
        }
    }
}

proof fn lemma_inserted(entries: Entries, capacity: nat, key: Seq<char>, value: u64)
    requires
        distinct_keys(entries),
        entries.len() <= capacity,
        capacity > 0,
    ensures
        distinct_keys(inserted(entries, capacity, key, value)),
        inserted(entries, capacity, key, value).len() <= capacity,
        holds(inserted(entries, capacity, key, value), key),
        position(inserted(entries, capacity, key, value), key) == 0,
{
    let after = inserted(entries, capacity, key, value);
    let rest = after.drop_first();
    assert(after[0] == (key, value));
    if holds(entries, key) {
        lemma_removed(entries, key);
        assert(rest == removed(entries, key));
    } else if entries.len() == capacity {
        assert(rest == entries.drop_last());
        if holds(rest, key) {
            assert(rest[position(rest, key)] == entries[position(rest, key)]);
        }
    } else {
        assert(rest == entries);
    }
    assert(!holds(rest, key));
    assert forall|i: int, j: int| 0 <= i < j < after.len() implies (#[trigger] after[i]).0 != (
    #[trigger] after[j]).0 by {
        assert(after[j] == rest[j - 1]);
        if i > 0 {
            assert(after[i] == rest[i - 1]);
        }
    }
    let p = position(after, key);
    if p != 0 {
        assert(after[p] == rest[p - 1]);
    }
}

// ---------------------------------------------------------------------------
// The cache of the `lru` crate
// ---------------------------------------------------------------------------

/// `lru::LruCache`, of which nothing is seen but what `lru_entries` and
/// `lru_capacity` name.
#[verifier::external_type_specification]
#[verifier::external_body]
#[verifier::reject_recursive_types(K)]
#[verifier::reject_recursive_types(V)]
#[verifier::reject_recursive_types(S)]
pub struct ExLruCache<K, V, S>(lru::LruCache<K, V, S>);

/// `lru::DefaultHasher`, the hasher of a cache made by `LruCache::new`. It
/// is only carried along.
#[verifier::external_type_specification]
#[verifier::external_body]
pub struct ExLruHasher(lru::DefaultHasher);

/// What an `lru::LruCache` holds, from the most recently used entry to the
/// least recently used one.
pub uninterp spec fn lru_entries(cache: lru::LruCache<String, u64>) -> Entries;

/// The capacity that an `lru::LruCache` was made with.
pub uninterp spec fn lru_capacity(cache: lru::LruCache<String, u64>) -> nat;

/// `LruCache::new`: an empty cache that holds at most `capacity` entries.
#[verifier::external_body]
fn lru_new(capacity: usize) -> (cache: lru::LruCache<String, u64>)
    requires
        capacity > 0,
    ensures
        lru_entries(cache) == Seq::<(Seq<char>, u64)>::empty(),
        lru_capacity(cache) == capacity,
{
    lru::LruCache::new(std::num::NonZeroUsize::new(capacity).unwrap())
}

/// `LruCache::len`: the number of entries.
#[verifier::external_body]
fn lru_len(cache: &lru::LruCache<String, u64>) -> (n: usize)
    ensures
        n == lru_entries(*cache).len(),
{
    cache.len()
}

/// `LruCache::contains`: whether the key is present. The order of use stays
/// as it is.
#[verifier::external_body]
fn lru_contains(cache: &lru::LruCache<String, u64>, key: &str) -> (found: bool)
    ensures
        found == holds(lru_entries(*cache), key@),
{
    cache.contains(key)
}

/// `LruCache::get`: the value of the key, which becomes the most recently
/// used where it is present.
#[verifier::external_body]
fn lru_get(cache: &mut lru::LruCache<String, u64>, key: &str) -> (found: Option<u64>)
    ensures
        found == value_of(lru_entries(*old(cache)), key@),
        lru_entries(*final(cache)) == touched(lru_entries(*old(cache)), key@),
        lru_capacity(*final(cache)) == lru_capacity(*old(cache)),
{
    match cache.get(key) {
        Some(value) => Some(*value),
        None => None,
    }
}

/// `LruCache::put`: records the value under the key and returns the value
/// that the key had. A full cache first drops its least recently used entry
/// for a key that is new.
#[verifier::external_body]
fn lru_put(cache: &mut lru::LruCache<String, u64>, key: String, value: u64) -> (previous: Option<
    u64,
>)
    ensures
        previous == value_of(lru_entries(*old(cache)), key@),
        lru_entries(*final(cache)) == inserted(
            lru_entries(*old(cache)),
            lru_capacity(*old(cache)),
            key@,
            value,
        ),
        lru_capacity(*final(cache)) == lru_capacity(*old(cache)),
{
    cache.put(key, value)
}

/// `LruCache::pop`: takes the key out and returns the value that it had.
#[verifier::external_body]
fn lru_pop(cache: &mut lru::LruCache<String, u64>, key: &str) -> (previous: Option<u64>)
    ensures
        previous == value_of(lru_entries(*old(cache)), key@),
        lru_entries(*final(cache)) == removed(lru_entries(*old(cache)), key@),
        lru_capacity(*final(cache)) == lru_capacity(*old(cache)),
{
    cache.pop(key)
}

/// `LruCache::clear`: takes every entry out.
#[verifier::external_body]
fn lru_clear(cache: &mut lru::LruCache<String, u64>)
    ensures
        lru_entries(*final(cache)) == Seq::<(Seq<char>, u64)>::empty(),
        lru_capacity(*final(cache)) == lru_capacity(*old(cache)),
{
    cache.clear()
}

// ---------------------------------------------------------------------------
// The dedup cache
// ---------------------------------------------------------------------------

/// The identifiers of the messages that were already notified: at most
/// `DEDUP_CAPACITY` of them, the least recently used leaving first.
pub struct DedupCache {
    seen: lru::LruCache<String, u64>,
}

impl View for DedupCache {
    type V = Entries;

    /// The entries, most recently used first.
    closed spec fn view(&self) -> Entries {
        lru_entries(self.seen)
    }
}

impl DedupCache {
    /// The invariant of the cache: no identifier stands twice, and there are
    /// never more than `DEDUP_CAPACITY`.
    pub closed spec fn wf(&self) -> bool {
        &&& lru_capacity(self.seen) == DEDUP_CAPACITY
        &&& distinct_keys(self@)
        &&& self@.len() <= DEDUP_CAPACITY
    }

    /// Whether the identifier is remembered.
    pub open spec fn knows(&self, id: Seq<char>) -> bool {
        holds(self@, id)
    }

    /// What the invariant gives: the bound and the absence of repetitions.
    pub proof fn lemma_wf(&self)
        requires
            self.wf(),
        ensures
            self@.len() <= DEDUP_CAPACITY,
            distinct_keys(self@),
    {
    }

    /// An empty cache.
    pub fn new() -> (cache: DedupCache)
        ensures
            cache.wf(),
            cache@.len() == 0,
    {
        DedupCache { seen: lru_new(DEDUP_CAPACITY) }
    }

    /// The number of identifiers remembered.
    pub fn len(&self) -> (n: usize)
        requires
            self.wf(),
        ensures
            n == self@.len(),
            n <= DEDUP_CAPACITY,
    {
        lru_len(&self.seen)
    }

    /// Whether the identifier is remembered, without counting as a use.
    pub fn contains(&self, id: &str) -> (found: bool)
        ensures
            found == self.knows(id@),
    {
        lru_contains(&self.seen, id)
    }

    /// Whether the identifier is remembered. Asking counts as a use: an
    /// identifier that is present becomes the most recently used.
    pub fn is_known(&mut self, id: &str) -> (known: bool)
        requires
            old(self).wf(),
        ensures
            final(self).wf(),
            known == old(self).knows(id@),
            final(self)@ == touched(old(self)@, id@),
            forall|other: Seq<char>| final(self).knows(other) == old(self).knows(other),
    {
        proof {
            lemma_touched(self@, id@);
        }
        lru_get(&mut self.seen, id).is_some()
    }

    /// Remembers the identifier as seen at `now`. It becomes the most
    /// recently used; in a full cache a new identifier pushes the least
    /// recently used one out.
    pub fn mark_seen(&mut self, id: &str, now: u64)
        requires
            old(self).wf(),
        ensures
            final(self).wf(),
            final(self)@ == inserted(old(self)@, DEDUP_CAPACITY as nat, id@, now),
            final(self).knows(id@),
    {
        proof {
            lemma_inserted(self@, DEDUP_CAPACITY as nat, id@, now);
        }
        let _ = lru_put(&mut self.seen, id.to_owned(), now);
    }

    /// Forgets one identifier.
    pub fn forget(&mut self, id: &str)
        requires
            old(self).wf(),
        ensures
            final(self).wf(),
            final(self)@ == removed(old(self)@, id@),
            !final(self).knows(id@),
            forall|other: Seq<char>|
                other != id@ ==> final(self).knows(other) == old(self).knows(other),
    {
        proof {
            lemma_removed(self@, id@);
        }
        let _ = lru_pop(&mut self.seen, id);
    }

    /// Forgets every identifier.
    pub fn clear(&mut self)
        requires
            old(self).wf(),
        ensures
            final(self).wf(),
            final(self)@.len() == 0,
    {
        lru_clear(&mut self.seen);
    }
}

// ---------------------------------------------------------------------------
// Laws
// ---------------------------------------------------------------------------

/// The entries after each of `records` is recorded in turn, the first of
/// them first.
pub open spec fn spec_record_all(entries: Entries, capacity: nat, records: Entries) -> Entries
    decreases records.len(),
{
    if records.len() == 0 {
        entries
    } else {
        inserted(
            spec_record_all(entries, capacity, records.drop_last()),
            capacity,
            records.last().0,
            records.last().1,
        )
    }
}

/// The smaller of two numbers.
pub open spec fn least(a: nat, b: nat) -> nat {
    if a <= b {
        a
    } else {
        b
    }
}

/// Recording identifiers that are all different in an empty cache leaves
/// the most recent of them, as many as the cache can hold, the latest in
/// front: those recorded longest ago have left first. After 201 of them in a
/// cache of 200, exactly 200 are present, and the first is gone.
pub proof fn lemma_least_recent_leave_first(capacity: nat, records: Entries)
    requires
        capacity > 0,
        distinct_keys(records),
    ensures
        spec_record_all(Seq::empty(), capacity, records).len() == least(records.len(), capacity),
        forall|i: int|
            0 <= i < least(records.len(), capacity) ==> #[trigger] spec_record_all(
                Seq::empty(),
                capacity,
                records,
            )[i] == records[records.len() - 1 - i],
        records.len() > capacity ==> !holds(
            spec_record_all(Seq::empty(), capacity, records),
            records[0].0,
        ),
    decreases records.len(),
{
    let after = spec_record_all(Seq::empty(), capacity, records);
    if records.len() > 0 {
        let earlier = records.drop_last();
        let before = spec_record_all(Seq::empty(), capacity, earlier);
        let last = records.last();
        lemma_least_recent_leave_first(capacity, earlier);
        assert forall|i: int| 0 <= i < before.len() implies (#[trigger] before[i]).0
            != last.0 by {
            assert(before[i] == earlier[earlier.len() - 1 - i]);
            assert(earlier[earlier.len() - 1 - i] == records[earlier.len() - 1 - i]);
        }
        assert(!holds(before, last.0));
        assert(after == inserted(before, capacity, last.0, last.1));
        assert(after[0] == last);
        assert forall|i: int| 0 <= i < least(records.len(), capacity) implies #[trigger] after[i]
            == records[records.len() - 1 - i] by {
            if i > 0 {
                assert(after[i] == before[i - 1]);
                assert(before[i - 1] == earlier[earlier.len() - 1 - (i - 1)]);
            }
        }
        if records.len() > capacity {
            if holds(after, records[0].0) {
                let at = position(after, records[0].0);
                assert(after[at] == records[records.len() - 1 - at]);
                assert(records.len() - 1 - at > 0);
                assert(false);
            }
        }
    }
}

} // verus!
