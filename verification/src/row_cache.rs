//! The least-recently-used caches that hold the quads of rows already
//! decorated, keyed by the hash of the row.

use vstd::prelude::*;
use crate::decor::RowQuad;

verus! {

/// The cache type: a declared outside type.
#[verifier::external_type_specification]
#[verifier::external_body]
#[verifier::reject_recursive_types(K)]
#[verifier::reject_recursive_types(V)]
#[verifier::reject_recursive_types(S)]
pub struct ExLruCache<K, V, S>(lru::LruCache<K, V, S>);

/// The hasher with which the cache keys its table, `lru::DefaultHasher`: a
/// declared outside type.
#[verifier::external_type_specification]
#[verifier::external_body]
pub struct ExLruHasher(lru::DefaultHasher);

/// A cache from row hashes to lists of quads.
pub type QuadCache = lru::LruCache<u64, Vec<RowQuad>>;

/// What a cache holds: its entries, the most recently used first.
pub uninterp spec fn cache_entries(cache: QuadCache) -> Seq<(u64, Seq<RowQuad>)>;

/// The number of entries that a cache was made to hold.
pub uninterp spec fn cache_cap(cache: QuadCache) -> nat;

/// Position of the entry with key `key`, from `from` on.
pub open spec fn entry_index(entries: Seq<(u64, Seq<RowQuad>)>, key: u64, from: int) -> Option<int>
    decreases entries.len() - from,
{
    if from < 0 || from >= entries.len() {
        None
    } else if entries[from].0 == key {
        Some(from)
    } else {
        entry_index(entries, key, from + 1)
    }
}

/// The value stored under `key`, if any.
pub open spec fn lookup(entries: Seq<(u64, Seq<RowQuad>)>, key: u64) -> Option<Seq<RowQuad>> {
    match entry_index(entries, key, 0) {
        Some(i) => Some(entries[i].1),
        None => None,
    }
}

/// The entries after `key` was looked up: its entry, if there is one, moves
/// to the front.
pub open spec fn touched(entries: Seq<(u64, Seq<RowQuad>)>, key: u64) -> Seq<(u64, Seq<RowQuad>)> {
    match entry_index(entries, key, 0) {
        Some(i) => seq![entries[i]] + entries.remove(i),
        None => entries,
    }
}

/// The entries after `value` was stored under `key` in a cache made for
/// `cap` entries: the entry is at the front; an older entry with the same
/// key is gone, and otherwise, where the cache was full, the least recently
/// used entry is gone.
pub open spec fn stored(entries: Seq<(u64, Seq<RowQuad>)>, cap: nat, key: u64, value: Seq<RowQuad>) -> Seq<
    (u64, Seq<RowQuad>),
> {
    match entry_index(entries, key, 0) {
        Some(i) => seq![(key, value)] + entries.remove(i),
        None => if entries.len() >= cap && entries.len() > 0 {
            seq![(key, value)] + entries.drop_last()
        } else {
            seq![(key, value)] + entries
        },
    }
}

/// An empty cache for `cap` entries.
///
/// Trusted: this is `lru::LruCache::new`, which makes a cache without
/// entries that holds at most `cap` of them.
#[verifier::external_body]
pub(crate) fn cache_new(cap: usize) -> (cache: QuadCache)
    requires
        cap >= 1,
    ensures
        cache_entries(cache) == Seq::<(u64, Seq<RowQuad>)>::empty(),
        cache_cap(cache) == cap,
{
    lru::LruCache::new(std::num::NonZeroUsize::new(cap).unwrap())
}

/// Looks `key` up and marks its entry as the most recently used.
///
/// Trusted: this is `lru::LruCache::get`, which returns the value stored
/// under the key, if there is one, and moves that entry to the head of its
/// recency list, leaving the other entries in their order.
#[verifier::external_body]
pub(crate) fn cache_get(cache: &mut QuadCache, key: u64) -> (value: Option<&Vec<RowQuad>>)
    ensures
        cache_entries(*final(cache)) == touched(cache_entries(*old(cache)), key),
        cache_cap(*final(cache)) == cache_cap(*old(cache)),
        value is Some <==> lookup(cache_entries(*old(cache)), key) is Some,
        value matches Some(v) ==> Some(v@) == lookup(cache_entries(*old(cache)), key),
{
    cache.get(&key)
}

/// Stores `value` under `key` as the most recently used entry.
///
/// Trusted: this is `lru::LruCache::put`, which replaces the value of an
/// entry with the same key and moves it to the head of the recency list, or
/// else adds a new entry at the head, after removing the entry at the tail
/// where the cache already holds as many entries as it was made for.
#[verifier::external_body]
pub(crate) fn cache_put(cache: &mut QuadCache, key: u64, value: Vec<RowQuad>)
    ensures
        cache_entries(*final(cache)) == stored(
            cache_entries(*old(cache)),
            cache_cap(*old(cache)),
            key,
            value@,
        ),
        cache_cap(*final(cache)) == cache_cap(*old(cache)),
{
    cache.put(key, value);
}

} // verus!
