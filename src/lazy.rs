//! A value held for later use.

use vstd::prelude::*;

verus! {

/// A value wrapped so that it can be carried through declarations unchanged.
#[derive(Clone, Debug, PartialEq, Eq, Hash, PartialOrd, Ord)]
pub struct Lazy<T>(T);

impl<T> Lazy<T> {
    pub closed spec fn value(&self) -> T {
        self.0
    }

    /// Wraps `value`.
    pub fn new(value: T) -> (r: Lazy<T>)
        ensures
            r.value() == value,
    {
        Lazy(value)
    }

    /// The wrapped value.
    pub fn get(&self) -> (r: &T)
        ensures
            *r == self.value(),
    {
        &self.0
    }

    /// Unwraps the value.
    pub fn into_inner(self) -> (r: T)
        ensures
            r == self.value(),
    {
        self.0
    }
}

} // verus!
