//! The mirror store: a bounded cache from a path of the watched tree to
//! what is known of it, which forgets the entry used longest ago when it is
//! full.
//!
//! The cache itself is `lru::LruCache`. Its contents are spoken of as a
//! sequence of entries, the most recently used first; the functions below
//! say what each operation does to that sequence.

use crate::path::ComponentView;
use crate::path::SyncPath;
use crate::utils::PathMetadata;
use ahash::AHasher;
use lru::LruCache;
use std::hash::BuildHasherDefault;
use std::num::NonZeroUsize;
use vstd::prelude::*;

verus! {

/// The number of entries that the mirror store holds at most.
pub const STORE_CAPACITY: usize = 32_768;

/// No key occurs twice.
pub open spec fn distinct_keys<K, V>(entries: Seq<(K, V)>) -> bool {
    forall|i: int, j: int|
        0 <= i < j < entries.len() ==> (#[trigger] entries[i]).0 != (#[trigger] entries[j]).0
}

/// Some entry has the key.
pub open spec fn has_key<K, V>(entries: Seq<(K, V)>, key: K) -> bool {
    exists|i: int| 0 <= i < entries.len() && (#[trigger] entries[i]).0 == key
}

/// Where the entry with the key stands.
pub open spec fn index_of_key<K, V>(entries: Seq<(K, V)>, key: K) -> int {
    choose|i: int| 0 <= i < entries.len() && (#[trigger] entries[i]).0 == key
}

/// The value stored under the key.
pub open spec fn value_of<K, V>(entries: Seq<(K, V)>, key: K) -> Option<V> {
    if has_key(entries, key) {
        Some(entries[index_of_key(entries, key)].1)
    } else {
        None
    }
}

/// The entries after the key's entry, if any, was taken out.
pub open spec fn without<K, V>(entries: Seq<(K, V)>, key: K) -> Seq<(K, V)> {
    if has_key(entries, key) {
        entries.remove(index_of_key(entries, key))
    } else {
        entries
    }
}

/// The entries after the key's entry, if any, became the most recently used.
pub open spec fn promoted<K, V>(entries: Seq<(K, V)>, key: K) -> Seq<(K, V)> {
    if has_key(entries, key) {
        seq![entries[index_of_key(entries, key)]] + entries.remove(index_of_key(entries, key))
    } else {
        entries
    }
}

/// The entries after `value` was stored under `key` in a cache that holds
/// `cap` entries: the entry is the most recently used; a new key in a full
/// cache pushes out the entry used longest ago.
pub open spec fn inserted<K, V>(entries: Seq<(K, V)>, cap: nat, key: K, value: V) -> Seq<(K, V)> {
    if has_key(entries, key) {
        seq![(key, value)] + entries.remove(index_of_key(entries, key))
    } else if entries.len() >= cap && entries.len() > 0 {
        seq![(key, value)] + entries.drop_last()
    } else {
        seq![(key, value)] + entries
    }
}

/// The key whose entry a new key would push out of a cache of `cap` entries.
pub open spec fn evicted_key<K, V>(entries: Seq<(K, V)>, cap: nat, key: K) -> Option<K> {
    if !has_key(entries, key) && entries.len() >= cap && entries.len() > 0 {
        Some(entries.last().0)
    } else {
        None
    }
}

/// An entry at a known place is the entry of its key.
pub proof fn lemma_key_at<K, V>(entries: Seq<(K, V)>, i: int)
    requires
        distinct_keys(entries),
        0 <= i < entries.len(),
    ensures
        has_key(entries, entries[i].0),
        index_of_key(entries, entries[i].0) == i,
        value_of(entries, entries[i].0) == Some(entries[i].1),
{
    let key = entries[i].0;
    assert(has_key(entries, key));
    let j = index_of_key(entries, key);
    if j < i {
        assert(entries[j].0 != entries[i].0);
    } else if i < j {
        assert(entries[i].0 != entries[j].0);
    }
}

/// Taking a key out leaves the other keys as they were, and the key absent.
pub proof fn lemma_without<K, V>(entries: Seq<(K, V)>, key: K, other: K)
    requires
        distinct_keys(entries),
    ensures
        distinct_keys(without(entries, key)),
        without(entries, key).len() <= entries.len(),
        has_key(entries, key) ==> without(entries, key).len() + 1 == entries.len(),
        !has_key(without(entries, key), key),
        value_of(without(entries, key), key) is None,
        other != key ==> value_of(without(entries, key), other) == value_of(entries, other),
        other != key ==> has_key(without(entries, key), other) == has_key(entries, other),
{
    let after = without(entries, key);
    if has_key(entries, key) {
        let at = index_of_key(entries, key);
        assert forall|i: int| 0 <= i < after.len() implies (#[trigger] after[i]) == entries[if i
            < at {
            i
        } else {
            i + 1
        }] by {}
        assert forall|i: int, j: int| 0 <= i < j < after.len() implies (#[trigger] after[i]).0 != (
        #[trigger] after[j]).0 by {
            let a = if i < at { i } else { i + 1 };
            let b = if j < at { j } else { j + 1 };
            assert(entries[a].0 != entries[b].0);
        }
        if has_key(after, key) {
            let i = index_of_key(after, key);
            let a = if i < at { i } else { i + 1 };
            assert(after[i] == entries[a]);
            lemma_key_at(entries, a);
        }
        if other != key {
            if has_key(entries, other) {
                let o = index_of_key(entries, other);
                let shifted = if o < at { o } else { o - 1 };
                assert(o != at);
                assert(after[shifted] == entries[o]);
                lemma_key_at(after, shifted);
            } else if has_key(after, other) {
                let i = index_of_key(after, other);
                let a = if i < at { i } else { i + 1 };
                assert(after[i] == entries[a]);
                assert(entries[a].0 == other);
            }
        }
    }
}

/// Using a key keeps every value and moves only the key's entry.
pub proof fn lemma_promoted<K, V>(entries: Seq<(K, V)>, key: K, other: K)
    requires
        distinct_keys(entries),
    ensures
        distinct_keys(promoted(entries, key)),
        promoted(entries, key).len() == entries.len(),
        value_of(promoted(entries, key), other) == value_of(entries, other),
        has_key(promoted(entries, key), other) == has_key(entries, other),
        has_key(entries, key) ==> promoted(entries, key)[0].0 == key,
{
    let after = promoted(entries, key);
    if has_key(entries, key) {
        let at = index_of_key(entries, key);
        let rest = without(entries, key);
        lemma_without(entries, key, other);
        assert(after =~= seq![entries[at]] + rest);
        assert forall|i: int, j: int| 0 <= i < j < after.len() implies (#[trigger] after[i]).0 != (
        #[trigger] after[j]).0 by {
            assert(after[j] == rest[j - 1]);
            if i == 0 {
                if rest[j - 1].0 == key {
                    assert(has_key(rest, key));
                }
            } else {
                assert(after[i] == rest[i - 1]);
                assert(rest[i - 1].0 != rest[j - 1].0);
            }
        }
        if other == key {
            assert(after[0] == entries[at]);
            lemma_key_at(after, 0);
        } else if has_key(entries, other) {
            let o = index_of_key(rest, other);
            assert(after[o + 1] == rest[o]);
            lemma_key_at(after, o + 1);
        } else if has_key(after, other) {
            let i = index_of_key(after, other);
            assert(i != 0);
            assert(after[i] == rest[i - 1]);
            assert(has_key(rest, other));
        }
    }
}

/// Storing a value makes it the key's value and the most recent entry, keeps
/// the cache within its bound, and leaves every other key as it was but the
/// one that was pushed out.
pub proof fn lemma_inserted<K, V>(entries: Seq<(K, V)>, cap: nat, key: K, value: V, other: K)
    requires
        distinct_keys(entries),
        entries.len() <= cap,
        cap >= 1,
    ensures
        distinct_keys(inserted(entries, cap, key, value)),
        inserted(entries, cap, key, value).len() <= cap,
        inserted(entries, cap, key, value).len() >= 1,
        inserted(entries, cap, key, value)[0] == (key, value),
        value_of(inserted(entries, cap, key, value), key) == Some(value),
        other != key && evicted_key(entries, cap, key) != Some(other) ==> value_of(
            inserted(entries, cap, key, value),
            other,
        ) == value_of(entries, other),
        other != key && evicted_key(entries, cap, key) == Some(other) ==> value_of(
            inserted(entries, cap, key, value),
            other,
        ) is None,
{
    let after = inserted(entries, cap, key, value);
    let rest = if has_key(entries, key) {
        without(entries, key)
    } else if entries.len() >= cap && entries.len() > 0 {
        entries.drop_last()
    } else {
        entries
    };
    assert(after =~= seq![(key, value)] + rest);
    lemma_without(entries, key, other);
    assert(distinct_keys(rest));
    assert(!has_key(rest, key)) by {
        if has_key(rest, key) {
            let i = index_of_key(rest, key);
            if !has_key(entries, key) {
                assert(rest[i] == entries[i]);
            }
        }
    }
    assert forall|i: int, j: int| 0 <= i < j < after.len() implies (#[trigger] after[i]).0 != (
    #[trigger] after[j]).0 by {
        assert(after[j] == rest[j - 1]);
        if i == 0 {
            if rest[j - 1].0 == key {
                assert(has_key(rest, key));
            }
        } else {
            assert(after[i] == rest[i - 1]);
            assert(rest[i - 1].0 != rest[j - 1].0);
        }
    }
    lemma_key_at(after, 0);
    if other != key {
        assert(has_key(after, other) == has_key(rest, other)) by {
            if has_key(after, other) {
                let i = index_of_key(after, other);
                assert(after[i] == rest[i - 1]);
                assert(has_key(rest, other));
            }
            if has_key(rest, other) {
                let i = index_of_key(rest, other);
                assert(after[i + 1] == rest[i]);
            }
        }
        if has_key(rest, other) {
            let i = index_of_key(rest, other);
            assert(after[i + 1] == rest[i]);
            lemma_key_at(after, i + 1);
        }
        if !has_key(entries, key) && entries.len() >= cap && entries.len() > 0 {
            // the last entry left
            let last = entries.len() - 1;
            if has_key(entries, other) {
                let o = index_of_key(entries, other);
                if o == last {
                    assert(evicted_key(entries, cap, key) == Some(other));
                    if has_key(rest, other) {
                        let i = index_of_key(rest, other);
                        assert(rest[i] == entries[i]);
                        assert(entries[i].0 != entries[last].0);
                    }
                } else {
                    assert(rest[o] == entries[o]);
                    lemma_key_at(rest, o);
                    assert(entries[o].0 != entries[last].0);
                }
            } else if has_key(rest, other) {
                let i = index_of_key(rest, other);
                assert(rest[i] == entries[i]);
            }
        }
    }
}

/// The entries of a cache, the most recently used first, each key by its
/// view.
pub uninterp spec fn cache_entries(
    cache: LruCache<SyncPath, PathMetadata, BuildHasherDefault<AHasher>>,
) -> Seq<(Seq<ComponentView>, PathMetadata)>;

/// The number of entries that a cache was made to hold.
pub uninterp spec fn cache_cap(
    cache: LruCache<SyncPath, PathMetadata, BuildHasherDefault<AHasher>>,
) -> nat;

/// `lru::LruCache`, carried as it is: what it holds is spoken of through
/// [`cache_entries`] and [`cache_cap`].
#[verifier::external_type_specification]
#[verifier::external_body]
#[verifier::reject_recursive_types(K)]
#[verifier::reject_recursive_types(V)]
#[verifier::reject_recursive_types(S)]
pub struct ExLruCache<K, V, S>(LruCache<K, V, S>);

/// `std::hash::BuildHasherDefault`, the maker of the cache's hashers;
/// nothing is said of it.
#[verifier::external_type_specification]
#[verifier::external_body]
#[verifier::reject_recursive_types(H)]
pub struct ExBuildHasherDefault<H>(BuildHasherDefault<H>);

/// `ahash::AHasher`, the cache's hasher; nothing is said of it.
#[verifier::external_type_specification]
#[verifier::external_body]
pub struct ExAHasher(AHasher);

/// `LruCache::with_hasher`, with `ahash`'s hasher: an empty cache that
/// holds at most `cap` entries. The bound on `cap` keeps the table that is
/// allocated at once within what an allocation can be.
#[verifier::external_body]
fn cache_with_hasher(cap: usize) -> (cache: LruCache<
    SyncPath,
    PathMetadata,
    BuildHasherDefault<AHasher>,
>)
    requires
        0 < cap <= 0x100_0000,
    ensures
        cache_entries(cache) == Seq::<(Seq<ComponentView>, PathMetadata)>::empty(),
        cache_cap(cache) == cap,
{
    LruCache::with_hasher(NonZeroUsize::new(cap).unwrap(), BuildHasherDefault::<AHasher>::default())
}

/// `LruCache::put`: stores the value under the key and makes the entry the
/// most recently used. A key that is new to a full cache pushes out the
/// entry used longest ago. Returns the value that the key had. Keys are
/// compared by the equality that `SyncPath` derives, which is equality of
/// the components. The call does not panic: hashing and comparing a
/// `SyncPath` cannot.
#[verifier::external_body]
fn cache_put(
    cache: &mut LruCache<SyncPath, PathMetadata, BuildHasherDefault<AHasher>>,
    key: SyncPath,
    value: PathMetadata,
) -> (previous: Option<PathMetadata>)
    ensures
        cache_entries(*final(cache)) == inserted(
            cache_entries(*old(cache)),
            cache_cap(*old(cache)),
            key@,
            value,
        ),
        cache_cap(*final(cache)) == cache_cap(*old(cache)),
        previous == value_of(cache_entries(*old(cache)), key@),
    no_unwind
{
    cache.put(key, value)
}

/// `LruCache::get`: the value under the key, whose entry becomes the most
/// recently used. The call does not panic.
#[verifier::external_body]
fn cache_get(
    cache: &mut LruCache<SyncPath, PathMetadata, BuildHasherDefault<AHasher>>,
    key: &SyncPath,
) -> (found: Option<PathMetadata>)
    ensures
        cache_entries(*final(cache)) == promoted(cache_entries(*old(cache)), key@),
        cache_cap(*final(cache)) == cache_cap(*old(cache)),
        found == value_of(cache_entries(*old(cache)), key@),
    no_unwind
{
    cache.get(key).copied()
}

/// `LruCache::pop`: takes the key's entry out and returns its value. The
/// call does not panic.
#[verifier::external_body]
fn cache_pop(
    cache: &mut LruCache<SyncPath, PathMetadata, BuildHasherDefault<AHasher>>,
    key: &SyncPath,
) -> (taken: Option<PathMetadata>)
    ensures
        cache_entries(*final(cache)) == without(cache_entries(*old(cache)), key@),
        cache_cap(*final(cache)) == cache_cap(*old(cache)),
        taken == value_of(cache_entries(*old(cache)), key@),
    no_unwind
{
    cache.pop(key)
}

/// `LruCache::peek`: the value under the key; the cache stays as it is.
#[verifier::external_body]
fn cache_peek(
    cache: &LruCache<SyncPath, PathMetadata, BuildHasherDefault<AHasher>>,
    key: &SyncPath,
) -> (found: Option<PathMetadata>)
    ensures
        found == value_of(cache_entries(*cache), key@),
{
    cache.peek(key).copied()
}

/// `LruCache::len`: the number of entries.
#[verifier::external_body]
fn cache_len(cache: &LruCache<SyncPath, PathMetadata, BuildHasherDefault<AHasher>>) -> (len: usize)
    ensures
        len == cache_entries(*cache).len(),
{
    cache.len()
}

/// What a well-formed store holds: no key twice, no more entries than its
/// bound, and no directory with a fingerprint.
pub open spec fn store_wf(entries: Seq<(Seq<ComponentView>, PathMetadata)>, cap: nat) -> bool {
    &&& distinct_keys(entries)
    &&& entries.len() <= cap
    &&& cap >= 1
    &&& forall|i: int| 0 <= i < entries.len() ==> (#[trigger] entries[i]).1.wf()
}

/// Taking a key out keeps a store well-formed.
pub proof fn lemma_without_wf(
    entries: Seq<(Seq<ComponentView>, PathMetadata)>,
    cap: nat,
    key: Seq<ComponentView>,
)
    requires
        store_wf(entries, cap),
    ensures
        store_wf(without(entries, key), cap),
{
    lemma_without(entries, key, key);
}

/// Using a key keeps a store well-formed.
pub proof fn lemma_promoted_wf(
    entries: Seq<(Seq<ComponentView>, PathMetadata)>,
    cap: nat,
    key: Seq<ComponentView>,
)
    requires
        store_wf(entries, cap),
    ensures
        store_wf(promoted(entries, key), cap),
{
    lemma_promoted(entries, key, key);
    let after = promoted(entries, key);
    if has_key(entries, key) {
        let at = index_of_key(entries, key);
        assert forall|i: int| 0 <= i < after.len() implies (#[trigger] after[i]).1.wf() by {
            if i == 0 {
                assert(after[0] == entries[at]);
            } else {
                let rest = entries.remove(at);
                assert(after[i] == rest[i - 1]);
                assert(rest[i - 1] == entries[if i - 1 < at {
                    i - 1
                } else {
                    i
                }]);
            }
        }
    }
}

/// Storing well-formed metadata keeps a store well-formed.
pub proof fn lemma_inserted_wf(
    entries: Seq<(Seq<ComponentView>, PathMetadata)>,
    cap: nat,
    key: Seq<ComponentView>,
    value: PathMetadata,
)
    requires
        store_wf(entries, cap),
        value.wf(),
    ensures
        store_wf(inserted(entries, cap, key, value), cap),
{
    lemma_inserted(entries, cap, key, value, key);
    let after = inserted(entries, cap, key, value);
    assert forall|i: int| 0 <= i < after.len() implies (#[trigger] after[i]).1.wf() by {
        if i > 0 {
            if has_key(entries, key) {
                let at = index_of_key(entries, key);
                let rest = entries.remove(at);
                assert(after[i] == rest[i - 1]);
                assert(rest[i - 1] == entries[if i - 1 < at {
                    i - 1
                } else {
                    i
                }]);
            } else {
                assert(after[i] == entries[i - 1]);
            }
        }
    }
}

/// The mirror store.
pub struct FileStore {
    content: LruCache<SyncPath, PathMetadata, BuildHasherDefault<AHasher>>,
}

impl FileStore {
    #[verifier::type_invariant]
    spec fn inv(self) -> bool {
        store_wf(cache_entries(self.content), cache_cap(self.content))
    }

    /// The entries, the most recently used first.
    pub closed spec fn entries(&self) -> Seq<(Seq<ComponentView>, PathMetadata)> {
        cache_entries(self.content)
    }

    /// The number of entries that the store holds at most.
    pub closed spec fn capacity(&self) -> nat {
        cache_cap(self.content)
    }

    /// What the store knows of a path.
    pub open spec fn lookup(&self, key: Seq<ComponentView>) -> Option<PathMetadata> {
        value_of(self.entries(), key)
    }

    /// An empty store of the standard capacity.
    pub fn new() -> (res: Self)
        ensures
            res.entries() == Seq::<(Seq<ComponentView>, PathMetadata)>::empty(),
            res.capacity() == STORE_CAPACITY,
    {
        FileStore { content: cache_with_hasher(STORE_CAPACITY) }
    }

    /// An empty store that holds at most `cap` entries, or `None` when
    /// `cap` is zero or above the standard capacity.
    pub fn with_capacity(cap: usize) -> (res: Option<Self>)
        ensures
            res is Some <==> 0 < cap <= STORE_CAPACITY,
            res matches Some(store) ==> store.entries() == Seq::<
                (Seq<ComponentView>, PathMetadata),
            >::empty() && store.capacity() == cap,
    {
        if cap == 0 || cap > STORE_CAPACITY {
            None
        } else {
            Some(FileStore { content: cache_with_hasher(cap) })
        }
    }

    /// Stores what is known of a path, as its most recently used entry.
    /// A fingerprint offered for a directory is dropped.
    pub fn create(&mut self, key: SyncPath, value: PathMetadata)
        ensures
            final(self).entries() == inserted(
                old(self).entries(),
                old(self).capacity(),
                key@,
                PathMetadata::spec_new(value.path_type, value.hash, value.last_change),
            ),
            final(self).capacity() == old(self).capacity(),
    {
        let value = PathMetadata::new(value.path_type, value.hash, value.last_change);
        proof {
            use_type_invariant(&*self);
            lemma_inserted_wf(self.entries(), self.capacity(), key@, value);
        }
        let _ = cache_put(&mut self.content, key, value);
    }

    /// What the store knows of a path. Looking a path up makes its entry
    /// the most recently used.
    pub fn read(&mut self, key: &SyncPath) -> (res: Option<PathMetadata>)
        ensures
            res == old(self).lookup(key@),
            final(self).entries() == promoted(old(self).entries(), key@),
            final(self).capacity() == old(self).capacity(),
    {
        proof {
            use_type_invariant(&*self);
            lemma_promoted_wf(self.entries(), self.capacity(), key@);
        }
        cache_get(&mut self.content, key)
    }

    /// What the store knows of a path, without counting as a use of it.
    pub fn peek(&self, key: &SyncPath) -> (res: Option<PathMetadata>)
        ensures
            res == self.lookup(key@),
    {
        cache_peek(&self.content, key)
    }

    /// The number of entries.
    pub fn len(&self) -> (res: usize)
        ensures
            res == self.entries().len(),
    {
        cache_len(&self.content)
    }

    /// Replaces what is known of a path, as its most recently used entry.
    /// A fingerprint offered for a directory is dropped.
    pub fn update(&mut self, key: SyncPath, value: PathMetadata)
        ensures
            final(self).entries() == inserted(
                old(self).entries(),
                old(self).capacity(),
                key@,
                PathMetadata::spec_new(value.path_type, value.hash, value.last_change),
            ),
            final(self).capacity() == old(self).capacity(),
    {
        self.create(key, value)
    }

    /// Forgets a path.
    pub fn delete(&mut self, key: &SyncPath)
        ensures
            final(self).entries() == without(old(self).entries(), key@),
            final(self).capacity() == old(self).capacity(),
    {
        let _ = self.take(key);
    }

    /// Forgets a path and hands back what was known of it.
    pub fn take(&mut self, key: &SyncPath) -> (res: Option<PathMetadata>)
        ensures
            res == old(self).lookup(key@),
            final(self).entries() == without(old(self).entries(), key@),
            final(self).capacity() == old(self).capacity(),
    {
        proof {
            use_type_invariant(&*self);
            lemma_without_wf(self.entries(), self.capacity(), key@);
        }
        cache_pop(&mut self.content, key)
    }
}

} // verus!
