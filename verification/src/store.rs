//! The bounded map of the `lru` crate as the cache uses it. Nothing in this
//! module is proved: each function states, over the sequence of entries that
//! the map holds, what the crate's method does. The keys are tuples of
//! integers, whose equality and hash are those of their parts. The methods
//! that change the map are also taken not to unwind: they hash and compare
//! keys, relink entries and allocate, and a failed allocation aborts.

use lru::LruCache;
use vstd::prelude::*;

use crate::recency::{displaced, has_key, pushed, refreshed, removed, value_of};
use crate::worker::{PeerKey, WorkerInfo};

verus! {

/// `lru::LruCache`. Opaque: what it holds is spoken of through
/// `lru_entries` and `lru_capacity`.
#[verifier::external_type_specification]
#[verifier::external_body]
#[verifier::reject_recursive_types(K)]
#[verifier::reject_recursive_types(V)]
#[verifier::reject_recursive_types(S)]
pub struct ExLruCache<K, V, S>(lru::LruCache<K, V, S>);

/// `lru::DefaultHasher`, the state of the hasher that a map made by
/// `LruCache::new` uses. Opaque.
#[verifier::external_type_specification]
#[verifier::external_body]
pub struct ExDefaultHasher(lru::DefaultHasher);

/// The entries that the map holds, the least recently used one first and the
/// most recently used one last.
pub uninterp spec fn lru_entries(cache: LruCache<PeerKey, WorkerInfo>) -> Seq<(PeerKey, WorkerInfo)>;

/// The number of entries that the map was made to hold at most.
pub uninterp spec fn lru_capacity(cache: LruCache<PeerKey, WorkerInfo>) -> nat;

/// The largest capacity that a map is made with. The map sizes its table for
/// the whole capacity at once: eight sevenths of the capacity, rounded up to
/// a power of two, times the size of two pointers and one byte. Up to this
/// bound that size stays below half of the address space, on a machine of any
/// width, so that computing it does not overflow.
pub const MAX_CAPACITY: usize = usize::MAX / 128;

/// `LruCache::new`: an empty map that holds at most `capacity` entries. The
/// bound on the capacity keeps the call from panicking over the size of the
/// table; whether the machine has the memory for the table is not in it.
#[verifier::external_body]
pub(crate) fn lru_new(capacity: usize) -> (cache: LruCache<PeerKey, WorkerInfo>)
    requires
        capacity <= MAX_CAPACITY,
    ensures
        lru_entries(cache) == Seq::<(PeerKey, WorkerInfo)>::empty(),
        lru_capacity(cache) == capacity,
{
    LruCache::new(capacity)
}

/// `LruCache::contains`: whether the key is present. The order of the
/// entries is not touched.
#[verifier::external_body]
pub(crate) fn lru_contains(cache: &LruCache<PeerKey, WorkerInfo>, key: &PeerKey) -> (present: bool)
    ensures
        present == has_key(lru_entries(*cache), *key),
{
    cache.contains(key)
}

/// `LruCache::push`: stores the value under the key as the most recently
/// used entry and hands back the entry that left: the old entry of the same
/// key, or the least recently used entry where the map was full and the key
/// new. A map of capacity zero stores nothing and hands nothing back.
/// Taken not to unwind.
#[verifier::external_body]
pub(crate) fn lru_push(cache: &mut LruCache<PeerKey, WorkerInfo>, key: PeerKey, value: WorkerInfo) -> (left: Option<(PeerKey, WorkerInfo)>)
    ensures
        lru_capacity(*final(cache)) == lru_capacity(*old(cache)),
        lru_entries(*final(cache)) == pushed(
            lru_entries(*old(cache)),
            lru_capacity(*old(cache)),
            key,
            value,
        ),
        left == displaced(lru_entries(*old(cache)), lru_capacity(*old(cache)), key),
    no_unwind
{
    cache.push(key, value)
}

/// `LruCache::get`: looks the key up; an entry that is found becomes the most
/// recently used one, and its value is handed out. Nothing else changes.
/// Taken not to unwind.
#[verifier::external_body]
pub(crate) fn lru_get<'a>(cache: &'a mut LruCache<PeerKey, WorkerInfo>, key: &PeerKey) -> (found: Option<&'a WorkerInfo>)
    ensures
        lru_capacity(*final(cache)) == lru_capacity(*old(cache)),
        lru_entries(*final(cache)) == refreshed(lru_entries(*old(cache)), *key),
        has_key(lru_entries(*old(cache)), *key) ==> found == Some(
            &value_of(lru_entries(*old(cache)), *key),
        ),
        !has_key(lru_entries(*old(cache)), *key) ==> found is None,
    no_unwind
{
    cache.get(key)
}

/// `LruCache::pop`: removes the entry of the key and hands back its value;
/// the other entries keep their order. Without such an entry nothing changes.
/// Taken not to unwind.
#[verifier::external_body]
pub(crate) fn lru_pop(cache: &mut LruCache<PeerKey, WorkerInfo>, key: &PeerKey) -> (left: Option<WorkerInfo>)
    ensures
        lru_capacity(*final(cache)) == lru_capacity(*old(cache)),
        lru_entries(*final(cache)) == removed(lru_entries(*old(cache)), *key),
        has_key(lru_entries(*old(cache)), *key) ==> left == Some(
            value_of(lru_entries(*old(cache)), *key),
        ),
        !has_key(lru_entries(*old(cache)), *key) ==> left is None,
    no_unwind
{
    cache.pop(key)
}

/// `LruCache::pop_lru`: removes the least recently used entry and hands it
/// back; `None` where the map is empty.
/// Taken not to unwind.
#[verifier::external_body]
pub(crate) fn lru_pop_lru(cache: &mut LruCache<PeerKey, WorkerInfo>) -> (left: Option<(PeerKey, WorkerInfo)>)
    ensures
        lru_capacity(*final(cache)) == lru_capacity(*old(cache)),
        lru_entries(*old(cache)).len() > 0 ==> left == Some(lru_entries(*old(cache))[0])
            && lru_entries(*final(cache)) == lru_entries(*old(cache)).drop_first(),
        lru_entries(*old(cache)).len() == 0 ==> left is None && lru_entries(*final(cache))
            == lru_entries(*old(cache)),
    no_unwind
{
    cache.pop_lru()
}

} // verus!
