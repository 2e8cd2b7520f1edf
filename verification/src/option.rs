//! Iteration helpers over optional values: at most one element each.

use vstd::prelude::*;

verus! {

/// Walks the at most one borrowed element of an optional value.
pub struct Iter<'a, T>(Option<&'a T>);

impl<'a, T> Iter<'a, T> {
    /// What is left to yield.
    pub closed spec fn view(&self) -> Option<&'a T> {
        self.0
    }

    /// An iterator over `value`'s element, if any.
    pub fn new(value: Option<&'a T>) -> (r: Iter<'a, T>)
        ensures
            r@ == value,
    {
        Iter(value)
    }

    /// The element, on the first call; nothing afterwards.
    pub fn next(&mut self) -> (r: Option<&'a T>)
        ensures
            r == old(self)@,
            final(self)@ is None,
    {
        self.0.take()
    }
}

/// Walks the at most one owned element of an optional value.
pub struct IntoIter<T>(Option<T>);

impl<T> IntoIter<T> {
    /// What is left to yield.
    pub closed spec fn view(&self) -> Option<T> {
        self.0
    }

    /// An iterator that consumes `value`.
    pub fn new(value: Option<T>) -> (r: IntoIter<T>)
        ensures
            r@ == value,
    {
        IntoIter(value)
    }

    /// The element, on the first call; nothing afterwards.
    pub fn next(&mut self) -> (r: Option<T>)
        ensures
            r == old(self)@,
            final(self)@ is None,
    {
        self.0.take()
    }
}

} // verus!
