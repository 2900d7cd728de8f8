//! A type map of protocol extensions.
//!
//! Each extension is stored under its type: at most one value of each type is held.

use vstd::prelude::*;
use std::any::{Any, TypeId};
use std::collections::HashMap;
use std::fmt::Debug;
use std::sync::Arc;

verus! {

/// A value that can be stored in [`Extensions`]: any type that is `Clone`, `Debug`, `Send`,
/// `Sync` and `'static`.
pub trait Extension: Clone + Debug + Send + Sync + 'static {}

impl<T: Clone + Debug + Send + Sync + 'static> Extension for T {}

/// The storage behind [`Extensions`]: a hash map from the `TypeId` of each stored type to the
/// type-erased value.
///
/// Every entry is written by [`map_insert`] or [`map_set`] under `TypeId::of::<T>()` with a value
/// of type `T`; no other code writes to the map. Values are shared between clones of a map;
/// [`Extensions::get_mut`] copies a shared value before handing it out, so that a clone behaves as
/// an independent copy.
#[verifier::external_body]
#[derive(Debug)]
pub struct ExtensionMap {
    inner: HashMap<TypeId, Arc<dyn Any + Send + Sync>>,
}

/// The number of entries, one per stored type, in an [`ExtensionMap`].
pub uninterp spec fn stored_count(m: ExtensionMap) -> nat;

/// Creates an empty map with `HashMap::new`.
///
/// Claims that the new map holds no entry.
#[verifier::external_body]
fn map_new() -> (m: ExtensionMap)
    ensures
        stored_count(m) == 0,
{
    ExtensionMap { inner: HashMap::new() }
}

/// Inserts `val` under `TypeId::of::<T>()` with `HashMap::insert`, and hands back the value
/// that the key held before, downcast to `T`.
///
/// Claims: `None` comes back exactly when no value of type `T` was held, and then the map
/// holds one entry more; otherwise a value was held (so the map was not empty) and the number of
/// entries is unchanged. This rests on the map's
/// invariant that the entry under `TypeId::of::<T>()` always holds a `T`. Which value comes back
/// is not stated: no non-generic name can say which type a value belongs to.
#[verifier::external_body]
fn map_insert<T: Extension>(m: &mut ExtensionMap, val: T) -> (previous: Option<T>)
    ensures
        previous is None ==> stored_count(*final(m)) == stored_count(*old(m)) + 1,
        previous is Some ==> stored_count(*old(m)) > 0 && stored_count(*final(m)) == stored_count(
            *old(m),
        ),
{
    m.inner
        .insert(TypeId::of::<T>(), Arc::new(val))
        .and_then(|shared| shared.downcast::<T>().ok())
        .map(Arc::unwrap_or_clone)
}

/// Looks up the entry under `TypeId::of::<T>()` with `HashMap::get` and downcasts it to `T`.
///
/// Claims only that a value comes back when the map is not empty; which value is not stated.
#[verifier::external_body]
fn map_get<T: Extension>(m: &ExtensionMap) -> (r: Option<&T>)
    ensures
        r is Some ==> stored_count(*m) > 0,
{
    m.inner.get(&TypeId::of::<T>()).and_then(|shared| shared.downcast_ref::<T>())
}

/// Looks up the entry under `TypeId::of::<T>()` with `HashMap::get` and reads how many handles
/// share its value with `Arc::strong_count`.
///
/// Claims that a count comes back only when the map is not empty, and that it is at least one,
/// for the entry itself holds a handle.
#[verifier::external_body]
fn map_share_count<T: Extension>(m: &ExtensionMap) -> (n: Option<usize>)
    ensures
        n is Some ==> stored_count(*m) > 0,
        n matches Some(k) ==> k >= 1,
{
    m.inner.get(&TypeId::of::<T>()).map(Arc::strong_count)
}

/// Looks up the entry under `TypeId::of::<T>()` with `HashMap::get`, downcasts it to `T` and
/// clones it with `Option::cloned`.
///
/// Claims only that a value comes back when the map is not empty; which value is not stated.
#[verifier::external_body]
fn map_copy<T: Extension>(m: &ExtensionMap) -> (v: Option<T>)
    ensures
        v is Some ==> stored_count(*m) > 0,
{
    m.inner.get(&TypeId::of::<T>()).and_then(|shared| shared.downcast_ref::<T>()).cloned()
}

/// Overwrites the entry under `TypeId::of::<T>()`, if there is one, with `val`, through the
/// reference that `HashMap::get_mut` gives. Returns whether there was one.
///
/// Claims that the number of entries is unchanged.
#[verifier::external_body]
fn map_set<T: Extension>(m: &mut ExtensionMap, val: T) -> (found: bool)
    ensures
        stored_count(*final(m)) == stored_count(*old(m)),
        found ==> stored_count(*old(m)) > 0,
{
    match m.inner.get_mut(&TypeId::of::<T>()) {
        Some(entry) => {
            *entry = Arc::new(val);
            true
        },
        None => false,
    }
}

/// Looks up the entry under `TypeId::of::<T>()` with `HashMap::get_mut`, takes the value
/// mutably with `Arc::get_mut` (which gives nothing while the value is shared) and downcasts it
/// to `T`.
///
/// Claims that the number of entries is unchanged, and that a value comes back only when the
/// map is not empty.
#[verifier::external_body]
fn map_get_mut<T: Extension>(m: &mut ExtensionMap) -> (r: Option<&mut T>)
    ensures
        stored_count(*final(m)) == stored_count(*old(m)),
        r is Some ==> stored_count(*old(m)) > 0,
{
    m.inner
        .get_mut(&TypeId::of::<T>())
        .and_then(Arc::get_mut)
        .and_then(|unique| unique.downcast_mut::<T>())
}

/// Removes the entry under `TypeId::of::<T>()` with `HashMap::remove` and downcasts it to `T`.
///
/// Claims: a value comes back exactly when a value of type `T` was held, and then the map holds
/// one entry fewer; otherwise the map is unchanged in size.
#[verifier::external_body]
fn map_remove<T: Extension>(m: &mut ExtensionMap) -> (r: Option<T>)
    ensures
        r is Some ==> stored_count(*old(m)) > 0 && stored_count(*final(m)) == stored_count(
            *old(m),
        ) - 1,
        r is None ==> stored_count(*final(m)) == stored_count(*old(m)),
{
    m.inner
        .remove(&TypeId::of::<T>())
        .and_then(|shared| shared.downcast::<T>().ok())
        .map(Arc::unwrap_or_clone)
}

/// Empties the map with `HashMap::clear`.
///
/// Claims that no entry is left.
#[verifier::external_body]
fn map_clear(m: &mut ExtensionMap)
    ensures
        stored_count(*final(m)) == 0,
{
    m.inner.clear()
}

/// Copies the map with `HashMap::clone`; the values are shared until one side mutates them.
///
/// Claims that the copy holds as many entries as the original.
#[verifier::external_body]
fn map_clone(m: &ExtensionMap) -> (copy: ExtensionMap)
    ensures
        stored_count(copy) == stored_count(*m),
{
    ExtensionMap { inner: m.inner.clone() }
}

/// A type map of protocol extensions.
///
/// `Extensions` can be used by `Request` and `Response` to store
/// extra data derived from the underlying protocol.
#[derive(Debug)]
pub struct Extensions {
    // If extensions are never used, no need to carry around an empty map.
    map: Option<Box<ExtensionMap>>,
}

impl View for Extensions {
    /// The number of stored extensions, one per type.
    type V = nat;

    closed spec fn view(&self) -> nat {
        match self.map {
            Some(m) => stored_count(*m),
            None => 0,
        }
    }
}

impl Extensions {
    /// Whether the backing map has been allocated; it is allocated by the first insertion.
    pub closed spec fn is_allocated(&self) -> bool {
        self.map is Some
    }

    /// Create an empty `Extensions`.
    pub fn new() -> (ext: Extensions)
        ensures
            ext@ == 0,
            !ext.is_allocated(),
    {
        Extensions { map: None }
    }

    /// Insert a type into this `Extensions`.
    ///
    /// If an extension of this type already existed, it will be returned.
    pub fn insert<T: Extension>(&mut self, val: T) -> (previous: Option<T>)
        ensures
            final(self).is_allocated(),
            previous is None ==> final(self)@ == old(self)@ + 1,
            previous is Some ==> old(self)@ > 0 && final(self)@ == old(self)@,
    {
        match &mut self.map {
            Some(m) => map_insert(m, val),
            None => {
                let mut m = Box::new(map_new());
                let previous = map_insert(&mut m, val);
                self.map = Some(m);
                previous
            },
        }
    }

    /// Get a reference to a type previously inserted into this `Extensions`.
    pub fn get<T: Extension>(&self) -> (r: Option<&T>)
        ensures
            r is Some ==> self@ > 0,
            !self.is_allocated() ==> r is None,
    {
        match &self.map {
            Some(m) => map_get(m),
            None => None,
        }
    }

    /// Get a mutable reference to a type previously inserted into this `Extensions`.
    pub fn get_mut<T: Extension>(&mut self) -> (r: Option<&mut T>)
        ensures
            final(self)@ == old(self)@,
            final(self).is_allocated() == old(self).is_allocated(),
            r is Some ==> old(self)@ > 0,
            !old(self).is_allocated() ==> r is None,
    {
        match &mut self.map {
            Some(m) => {
                // A value still shared with a clone of these extensions is replaced by a copy of
                // its own before it is handed out for mutation.
                if let Some(handles) = map_share_count::<T>(m) {
                    if handles > 1 {
                        if let Some(copy) = map_copy::<T>(m) {
                            map_set(m, copy);
                        }
                    }
                }
                map_get_mut(m)
            },
            None => None,
        }
    }

    /// Remove a type from this `Extensions`.
    ///
    /// If an extension of this type already existed, it will be returned.
    pub fn remove<T: Extension>(&mut self) -> (r: Option<T>)
        ensures
            final(self).is_allocated() == old(self).is_allocated(),
            r is Some ==> old(self)@ > 0 && final(self)@ == old(self)@ - 1,
            r is None ==> final(self)@ == old(self)@,
            !old(self).is_allocated() ==> r is None,
    {
        match &mut self.map {
            Some(m) => map_remove(m),
            None => None,
        }
    }

    /// Clear the `Extensions` of all inserted extensions.
    pub fn clear(&mut self)
        ensures
            final(self)@ == 0,
            final(self).is_allocated() == old(self).is_allocated(),
    {
        if let Some(m) = &mut self.map {
            map_clear(m);
        }
    }
}

impl Clone for Extensions {
    /// Copies the map of extensions. The copy shares each stored value with the original until
    /// either side takes it mutably with `get_mut`, which then gives that side a clone of its own;
    /// `insert` and `remove` replace or take out only their own side's entry.
    fn clone(&self) -> (copy: Self)
        ensures
            copy@ == self@,
            copy.is_allocated() == self.is_allocated(),
    {
        match &self.map {
            Some(m) => Extensions { map: Some(Box::new(map_clone(m))) },
            None => Extensions { map: None },
        }
    }
}

impl Default for Extensions {
    fn default() -> (ext: Self)
        ensures
            ext@ == 0,
            !ext.is_allocated(),
    {
        Extensions::new()
    }
}

} // verus!
