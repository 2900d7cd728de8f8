//! Small utility types.

use vstd::prelude::*;
use std::sync::Arc;

verus! {

/// A bottom type: it is impossible to instantiate this type, for its only field has the
/// uninhabited type `Infallible`.
#[derive(Debug)]
pub struct Never(std::convert::Infallible);

impl Never {
    /// The uninhabited value that this `Never` holds.
    pub closed spec fn inner(self) -> std::convert::Infallible {
        self.0
    }

    /// The uninhabited value inside; a caller holding a `Never` can match on it with no arms.
    pub fn into_infallible(self) -> (v: std::convert::Infallible)
        ensures
            v == self.inner(),
    {
        self.0
    }
}

/// A `String` that impls `std::error::Error`. Useful for quick-and-dirty error propagation.
#[derive(Debug)]
pub struct Message(pub String);

impl From<String> for Message {
    fn from(s: String) -> (m: Self) {
        Message(s)
    }
}

impl vstd::std_specs::convert::FromSpecImpl<String> for Message {
    open spec fn obeys_from_spec() -> bool {
        true
    }

    open spec fn from_spec(s: String) -> Message {
        Message(s)
    }
}

impl Message {
    /// A message holding the text `s`.
    pub fn from_str_slice(s: &str) -> (m: Self)
        ensures
            m.0@ == s@,
    {
        Message(s.to_string())
    }
}

/// Shares the value behind `a` with `Arc::clone`.
///
/// Claims that the clone points at the same value.
#[verifier::external_body]
fn share<T>(a: &Arc<T>) -> (b: Arc<T>)
    ensures
        b == *a,
{
    Arc::clone(a)
}

/// A reference counted wrapper to a service.
///
/// This wrapper is used to enabled sharing of a service between multiple concurrent workers.
pub struct ArcService<T>(Arc<T>);

impl<T> ArcService<T> {
    /// The shared service.
    pub closed spec fn service(&self) -> T {
        *self.0
    }

    /// Create a new reference counter `Service`.
    pub fn new(t: T) -> (s: Self)
        ensures
            s.service() == t,
    {
        ArcService(Arc::new(t))
    }

    /// Wraps a service that is already shared.
    pub fn from_arc(shared: Arc<T>) -> (s: Self)
        ensures
            s.service() == *shared,
    {
        ArcService(shared)
    }

    /// The shared handle to the service.
    pub fn into_arc(self) -> (shared: Arc<T>)
        ensures
            *shared == self.service(),
    {
        self.0
    }

}

impl<T> std::ops::Deref for ArcService<T> {
    type Target = T;

    /// The shared service.
    fn deref(&self) -> (t: &T)
        ensures
            *t == self.service(),
    {
        &self.0
    }
}

impl<T> Clone for ArcService<T> {
    /// Another handle to the same service.
    fn clone(&self) -> (s: Self)
        ensures
            s.service() == self.service(),
    {
        ArcService(share(&self.0))
    }
}

} // verus!
