//! A read-only wrapper: a value that can be looked at and never changed.

use vstd::prelude::*;

verus! {

/// A value of type `T` that is fixed from the moment it is wrapped.
///
/// The wrapper is made from a value and hands out shared references to it.
/// It has no operation that takes `&mut self`, gives out `&mut T` or replaces
/// the value, and its field is private: code that holds a `Frozen<T>`, by
/// reference or by value, can read the value and cannot alter it.
#[derive(Debug)]
pub struct Frozen<T> {
    value: T,
}

impl<T> View for Frozen<T> {
    type V = T;

    /// The wrapped value.
    closed spec fn view(&self) -> T {
        self.value
    }
}

impl<T> Frozen<T> {
    /// Wraps `value`.
    pub fn new(value: T) -> (frozen: Frozen<T>)
        ensures
            frozen@ == value,
    {
        Frozen { value }
    }

    /// The wrapped value, for reading.
    pub fn get(&self) -> (value: &T)
        ensures
            *value == self@,
    {
        &self.value
    }
}

impl<T> std::ops::Deref for Frozen<T> {
    type Target = T;

    /// The wrapped value, for reading.
    fn deref(&self) -> (value: &T)
        ensures
            *value == self@,
    {
        &self.value
    }
}

} // verus!
