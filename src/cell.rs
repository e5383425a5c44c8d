//! A single-owner cell: the value is checked out with `take` and handed back
//! with `put`, so at most one context holds it at a time.
use vstd::prelude::*;

verus! {

/// Holds a value, or nothing while the value is checked out.
pub struct Exchange<T> {
    slot: Option<T>,
}

impl<T> View for Exchange<T> {
    type V = Option<T>;

    closed spec fn view(&self) -> Option<T> {
        self.slot
    }
}

impl<T> Exchange<T> {
    /// A cell that holds `value`.
    pub fn new(value: T) -> (r: Self)
        ensures
            r@ == Some(value),
    {
        Exchange { slot: Some(value) }
    }

    /// Whether the value is checked out.
    pub fn is_taken(&self) -> (r: bool)
        ensures
            r == self@ is None,
    {
        self.slot.is_none()
    }

    /// The value, while the cell holds it.
    pub fn peek(&self) -> (r: &T)
        requires
            self@ is Some,
        ensures
            Some(*r) == self@,
    {
        self.slot.as_ref().unwrap()
    }

    /// Checks the value out. A second `take` before the matching `put` is a
    /// double checkout: it gives `None` and leaves the cell empty.
    pub fn take(&mut self) -> (r: Option<T>)
        ensures
            r == old(self)@,
            final(self)@ is None,
    {
        self.slot.take()
    }

    /// Hands the value back after a `take`.
    pub fn put(&mut self, value: T)
        requires
            old(self)@ is None,
        ensures
            final(self)@ == Some(value),
    {
        self.slot = Some(value);
    }
}

} // verus!
