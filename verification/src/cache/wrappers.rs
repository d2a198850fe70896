//! Wrappers around library types for easier use.
use vstd::prelude::*;

use std::hash::Hash;
use std::sync::Arc;

use dashmap::mapref::multiple::RefMulti;
use dashmap::mapref::one::{Ref, RefMut};
use dashmap::DashMap;
use vstd::std_specs::cmp::PartialEqSpec;
use vstd::std_specs::iter::IteratorSpec;

verus! {

/// The concurrent map that the cache keeps its fields in.
pub type HashMap<K, V> = DashMap<K, V, foldhash::fast::RandomState>;

/// A wrapper around `Option<DashMap<K, V>>` to ease disabling specific cache fields.
///
/// A disabled field (`None`) behaves as a map that is always empty: nothing is
/// found in it or walked over, nothing is kept when inserted, and its length is
/// zero. Of an enabled field, whose map other threads change through shared
/// references, no call's answer is stated.
#[derive(Debug)]
#[verifier::reject_recursive_types(K)]
#[verifier::reject_recursive_types(V)]
pub struct MaybeMap<K: Eq + Hash, V>(pub Option<HashMap<K, V>>);

impl<K: Eq + Hash, V> MaybeMap<K, V> {
    /// The entries of the map; none where the field is disabled.
    ///
    /// **Locking:** may deadlock if the calling thread holds a `RefMut` into
    /// the map, as `dashmap` documents.
    pub fn iter(&self) -> (r: impl Iterator<Item = RefMulti<'_, K, V>>)
        ensures
            self.0 is None ==> r.remaining().len() == 0,
    {
        let entries = match &self.0 {
            Some(map) => Some(map_iter(map)),
            None => None,
        };
        flatten_entries(entries)
    }

    /// The entry of `key`; `None` where the field is disabled.
    ///
    /// **Locking:** may deadlock if the calling thread holds a `RefMut` into
    /// the map, as `dashmap` documents.
    pub fn get(&self, key: &K) -> (r: Option<Ref<'_, K, V>>)
        ensures
            self.0 is None ==> r is None,
    {
        match &self.0 {
            Some(map) => map_get(map, key),
            None => None,
        }
    }

    /// The entry of `key`, to change; `None` where the field is disabled.
    ///
    /// **Locking:** may deadlock if the calling thread holds any guard into the
    /// map, as `dashmap` documents.
    pub fn get_mut(&self, key: &K) -> (r: Option<RefMut<'_, K, V>>)
        ensures
            self.0 is None ==> r is None,
    {
        match &self.0 {
            Some(map) => map_get_mut(map, key),
            None => None,
        }
    }

    /// Puts `value` under `key` and gives back the value it replaces; where the
    /// field is disabled nothing is kept and `None` comes back.
    ///
    /// **Locking:** may deadlock if the calling thread holds any guard into the
    /// map, as `dashmap` documents.
    pub fn insert(&self, key: K, value: V) -> (r: Option<V>)
        ensures
            self.0 is None ==> r is None,
    {
        match &self.0 {
            Some(map) => map_insert(map, key, value),
            None => None,
        }
    }

    /// Takes the entry of `key` out of the map; `None` where the field is disabled.
    /// The key that comes back is one that `key` compares equal to.
    ///
    /// **Locking:** may deadlock if the calling thread holds any guard into the
    /// map, as `dashmap` documents.
    pub fn remove(&self, key: &K) -> (r: Option<(K, V)>)
        ensures
            self.0 is None ==> r is None,
            r matches Some((k, _)) ==> (K::obeys_eq_spec() ==> key.eq_spec(&k)),
    {
        match &self.0 {
            Some(map) => map_remove(map, key),
            None => None,
        }
    }

    /// The number of entries; zero where the field is disabled.
    ///
    /// **Locking:** may deadlock if the calling thread holds a `RefMut` into
    /// the map, as `dashmap` documents.
    pub fn len(&self) -> (n: usize)
        ensures
            self.0 is None ==> n == 0,
    {
        match &self.0 {
            Some(map) => map_len(map),
            None => 0,
        }
    }

    /// Gives back memory that the map holds and does not need. It leaves the
    /// entries as they are, which is not stated: an enabled map's entries are
    /// not followed here.
    ///
    /// **Locking:** may deadlock if the calling thread holds any guard into the
    /// map, as `dashmap` documents.
    pub fn shrink_to_fit(&self) {
        if let Some(map) = &self.0 {
            map_shrink_to_fit(map);
        }
    }

    /// A view of the same map that cannot change it.
    pub(crate) fn as_read_only(&self) -> (r: ReadOnlyMapRef<'_, K, V>)
        ensures
            r.map() is None <==> self.0 is None,
            r.map() matches Some(m) ==> self.0 == Some(*m),
    {
        ReadOnlyMapRef(self.0.as_ref())
    }
}

/// A wrapper around a reference to a MaybeMap, allowing for public inspection of the underlying
/// map without allowing mutation of internal cache fields, which could cause issues.
#[derive(Clone, Copy, Debug)]
#[verifier::reject_recursive_types(K)]
#[verifier::reject_recursive_types(V)]
pub struct ReadOnlyMapRef<'a, K: Eq + Hash, V>(Option<&'a HashMap<K, V>>);

impl<'a, K: Eq + Hash, V> ReadOnlyMapRef<'a, K, V> {
    /// The map looked at; `None` where the field is disabled.
    pub closed spec fn map(self) -> Option<&'a HashMap<K, V>> {
        self.0
    }
}

impl<K: Eq + Hash, V> ReadOnlyMapRef<'_, K, V> {
    /// The entries of the map; none where the field is disabled.
    ///
    /// **Locking:** may deadlock if the calling thread holds a `RefMut` into
    /// the map, as `dashmap` documents.
    pub fn iter(&self) -> (r: impl Iterator<Item = RefMulti<'_, K, V>>)
        ensures
            self.map() is None ==> r.remaining().len() == 0,
    {
        let entries = match self.0 {
            Some(map) => Some(map_iter(map)),
            None => None,
        };
        flatten_entries(entries)
    }

    /// The entry of `k`; `None` where the field is disabled.
    ///
    /// **Locking:** may deadlock if the calling thread holds a `RefMut` into
    /// the map, as `dashmap` documents.
    pub fn get(&self, k: &K) -> (r: Option<Ref<'_, K, V>>)
        ensures
            self.map() is None ==> r is None,
    {
        match self.0 {
            Some(map) => map_get(map, k),
            None => None,
        }
    }

    /// The number of entries; zero where the field is disabled.
    ///
    /// **Locking:** may deadlock if the calling thread holds a `RefMut` into
    /// the map, as `dashmap` documents.
    pub fn len(&self) -> (n: usize)
        ensures
            self.map() is None ==> n == 0,
    {
        match self.0 {
            Some(map) => map_len(map),
            None => 0,
        }
    }

    /// Whether the map has an entry for `k`; never where the field is disabled.
    ///
    /// **Locking:** may deadlock if the calling thread holds a `RefMut` into
    /// the map, as `dashmap` documents.
    pub fn contains(&self, k: &K) -> (b: bool)
        ensures
            self.map() is None ==> !b,
    {
        match self.0 {
            Some(map) => map_contains_key(map, k),
            None => false,
        }
    }
}

impl<'a, K: Eq + Hash, V> From<&'a MaybeMap<K, V>> for ReadOnlyMapRef<'a, K, V> {
    /// A view of the same map that cannot change it.
    fn from(value: &'a MaybeMap<K, V>) -> (r: Self)
        ensures
            r.map() is None <==> value.0 is None,
            r.map() matches Some(m) ==> value.0 == Some(*m),
    {
        ReadOnlyMapRef(value.0.as_ref())
    }
}

impl<'a, K: Eq + Hash, V> vstd::std_specs::convert::FromSpecImpl<&'a MaybeMap<K, V>> for ReadOnlyMapRef<'a, K, V> {
    open spec fn obeys_from_spec() -> bool {
        true
    }

    closed spec fn from_spec(value: &'a MaybeMap<K, V>) -> Self {
        match &value.0 {
            Some(m) => ReadOnlyMapRef(Some(m)),
            None => ReadOnlyMapRef(None),
        }
    }
}

/// Wrapper around an `Arc` whose content counts towards the size of the cache.
#[derive(Debug)]
#[verifier::reject_recursive_types(T)]
pub struct MaybeOwnedArc<T>(Arc<T>);

impl<T> MaybeOwnedArc<T> {
    /// What the `Arc` points to.
    pub closed spec fn inner(self) -> T {
        *self.0
    }

    /// Puts `inner` behind a new `Arc`.
    pub fn new(inner: T) -> (r: Self)
        ensures
            r.inner() == inner,
    {
        Self(Arc::new(inner))
    }

    /// The `Arc` itself.
    pub fn get_inner(self) -> (r: Arc<T>)
        ensures
            *r == self.inner(),
    {
        self.0
    }
}

impl<T> std::ops::Deref for MaybeOwnedArc<T> {
    type Target = T;

    fn deref(&self) -> (r: &Self::Target)
        ensures
            *r == self.inner(),
    {
        &self.0
    }
}

impl<T> Clone for MaybeOwnedArc<T> {
    fn clone(&self) -> (r: Self)
        ensures
            r.inner() == self.inner(),
    {
        Self(arc_clone(&self.0))
    }
}

/// `DashMap::iter` (walking it may deadlock if the calling thread holds a
/// `RefMut` into the map); nothing is claimed of what it yields.
#[verifier::external_body]
fn map_iter<'a, K: Eq + Hash, V>(
    map: &'a HashMap<K, V>,
) -> dashmap::iter::Iter<'a, K, V, foldhash::fast::RandomState, HashMap<K, V>> {
    map.iter()
}

/// std's `Option::into_iter` and `Iterator::flatten`: the entries of the
/// iterator that is there, and none where there is none. That it yields
/// nothing where there is no iterator is claimed; of what an iterator that is
/// there yields nothing is claimed.
#[verifier::external_body]
fn flatten_entries<'a, K: Eq + Hash, V>(
    entries: Option<dashmap::iter::Iter<'a, K, V, foldhash::fast::RandomState, HashMap<K, V>>>,
) -> (r: impl Iterator<Item = RefMulti<'a, K, V>>)
    ensures
        entries is None ==> r.remaining().len() == 0,
{
    entries.into_iter().flatten()
}

/// `DashMap::get` (which may deadlock if the calling thread holds a `RefMut`
/// into the map); what it finds is not claimed, since other threads change
/// the map through shared references.
#[verifier::external_body]
fn map_get<'a, K: Eq + Hash, V>(map: &'a HashMap<K, V>, key: &K) -> Option<Ref<'a, K, V>> {
    map.get(key)
}

/// `DashMap::get_mut` (which may deadlock if the calling thread holds any
/// guard into the map); what it finds is not claimed.
#[verifier::external_body]
fn map_get_mut<'a, K: Eq + Hash, V>(map: &'a HashMap<K, V>, key: &K) -> Option<RefMut<'a, K, V>> {
    map.get_mut(key)
}

/// `DashMap::insert` (which may deadlock if the calling thread holds any
/// guard into the map); the value it gives back is not claimed.
#[verifier::external_body]
fn map_insert<K: Eq + Hash, V>(map: &HashMap<K, V>, key: K, value: V) -> Option<V> {
    map.insert(key, value)
}

/// `DashMap::remove` (which may deadlock if the calling thread holds any
/// guard into the map). Its source takes out only an entry whose key `key`
/// compares equal to (`key == k`), so that is claimed of the key it gives
/// back; whether an entry is there is not claimed.
#[verifier::external_body]
fn map_remove<K: Eq + Hash, V>(map: &HashMap<K, V>, key: &K) -> (r: Option<(K, V)>)
    ensures
        r matches Some((k, _)) ==> (K::obeys_eq_spec() ==> key.eq_spec(&k)),
{
    map.remove(key)
}

/// `DashMap::len` (which may deadlock if the calling thread holds a `RefMut`
/// into the map); the count is not claimed.
#[verifier::external_body]
fn map_len<K: Eq + Hash, V>(map: &HashMap<K, V>) -> usize {
    map.len()
}

/// `DashMap::shrink_to_fit` (which may deadlock if the calling thread holds
/// any guard into the map).
#[verifier::external_body]
fn map_shrink_to_fit<K: Eq + Hash, V>(map: &HashMap<K, V>) {
    map.shrink_to_fit()
}

/// `DashMap::contains_key` (which may deadlock if the calling thread holds a
/// `RefMut` into the map); the answer is not claimed.
#[verifier::external_body]
fn map_contains_key<K: Eq + Hash, V>(map: &HashMap<K, V>, key: &K) -> bool {
    map.contains_key(key)
}

/// `<Arc as Clone>::clone` (std): another pointer to the same allocation, so
/// the same content.
#[verifier::external_body]
fn arc_clone<T>(a: &Arc<T>) -> (r: Arc<T>)
    ensures
        *r == **a,
{
    a.clone()
}

/// `dashmap::DashMap`, a concurrent hash map.
#[verifier::external_type_specification]
#[verifier::external_body]
#[verifier::reject_recursive_types(K)]
#[verifier::reject_recursive_types(V)]
#[verifier::reject_recursive_types(S)]
pub struct ExDashMap<K, V, S>(DashMap<K, V, S>);

/// `dashmap::iter::Iter`, a walk over the entries of a map.
#[verifier::external_type_specification]
#[verifier::external_body]
#[verifier::reject_recursive_types(K)]
#[verifier::reject_recursive_types(V)]
#[verifier::reject_recursive_types(S)]
#[verifier::reject_recursive_types(M)]
pub struct ExIter<'a, K, V, S, M>(dashmap::iter::Iter<'a, K, V, S, M>);

/// `dashmap::mapref::one::Ref`, a read guard on one entry.
#[verifier::external_type_specification]
#[verifier::external_body]
#[verifier::reject_recursive_types(K)]
#[verifier::reject_recursive_types(V)]
pub struct ExRef<'a, K, V>(Ref<'a, K, V>);

/// `dashmap::mapref::one::RefMut`, a write guard on one entry.
#[verifier::external_type_specification]
#[verifier::external_body]
#[verifier::reject_recursive_types(K)]
#[verifier::reject_recursive_types(V)]
pub struct ExRefMut<'a, K, V>(RefMut<'a, K, V>);

/// `dashmap::mapref::multiple::RefMulti`, a read guard on one entry met while
/// walking the map.
#[verifier::external_type_specification]
#[verifier::external_body]
#[verifier::reject_recursive_types(K)]
#[verifier::reject_recursive_types(V)]
pub struct ExRefMulti<'a, K, V>(RefMulti<'a, K, V>);

/// `foldhash::fast::RandomState`, the hasher of the cache's maps.
#[verifier::external_type_specification]
#[verifier::external_body]
pub struct ExRandomState(foldhash::fast::RandomState);

} // verus!
