//! A store of values behind typed handles.
use vstd::prelude::*;

verus! {

/// A handle to a slot of a [`State`] that holds a `T`; it grants typed access
/// to the slot and owns nothing.
pub struct StateKey<T> {
    pub index: usize,
    pub marker: core::marker::PhantomData<T>,
}

impl<T> Clone for StateKey<T> {
    fn clone(&self) -> (r: Self)
        ensures
            r.index == self.index,
    {
        StateKey { index: self.index, marker: core::marker::PhantomData }
    }
}

impl<T> Copy for StateKey<T> {}

/// The store: an ordered collection of slots, each empty or holding a value.
pub struct State<T> {
    slots: Vec<Option<T>>,
}

impl<T> View for State<T> {
    type V = Seq<Option<T>>;

    closed spec fn view(&self) -> Seq<Option<T>> {
        self.slots@
    }
}

/// The value that slot `index` holds, if any.
pub open spec fn lookup<T>(slots: Seq<Option<T>>, index: usize) -> Option<T> {
    if index < slots.len() {
        slots[index as int]
    } else {
        None
    }
}

/// The slots after the slot at `index`, if it exists, is freed.
pub open spec fn after_remove<T>(slots: Seq<Option<T>>, index: usize) -> Seq<Option<T>> {
    if index < slots.len() {
        slots.update(index as int, None)
    } else {
        slots
    }
}

/// The slots after an occupied slot at `index` gets `value`; others stay.
pub open spec fn after_replace<T>(slots: Seq<Option<T>>, index: usize, value: T) -> Seq<Option<T>> {
    if lookup(slots, index) is Some {
        slots.update(index as int, Some(value))
    } else {
        slots
    }
}

impl<T> State<T> {
    /// An empty store.
    pub fn new() -> (r: Self)
        ensures
            r@ == Seq::<Option<T>>::empty(),
    {
        State { slots: Vec::new() }
    }

    /// The number of slots created so far.
    pub fn len(&self) -> (r: usize)
        ensures
            r == self@.len(),
    {
        self.slots.len()
    }

    /// Stores `value` in a fresh slot and returns its handle.
    pub fn insert(&mut self, value: T) -> (r: StateKey<T>)
        requires
            old(self)@.len() < usize::MAX,
        ensures
            r.index == old(self)@.len(),
            final(self)@ == old(self)@.push(Some(value)),
    {
        let index = self.slots.len();
        self.slots.push(Some(value));
        StateKey { index, marker: core::marker::PhantomData }
    }

    /// The value behind `key`, or `None` when its slot was removed or never
    /// created.
    pub fn get(&self, key: StateKey<T>) -> (r: Option<&T>)
        ensures
            r == match lookup(self@, key.index) {
                Some(v) => Some(&v),
                None => None::<&T>,
            },
    {
        if key.index < self.slots.len() {
            match &self.slots[key.index] {
                Some(v) => Some(v),
                None => None,
            }
        } else {
            None
        }
    }
    /// Overwrites the value behind `key` and returns the one it held; a
    /// removed or never created slot is left as it is and gives `None`.
    pub fn replace(&mut self, key: StateKey<T>, value: T) -> (r: Option<T>)
        ensures
            r == lookup(old(self)@, key.index),
            final(self)@ == after_replace(old(self)@, key.index, value),
    {
        if key.index < self.slots.len() && self.slots[key.index].is_some() {
            let mut slot = Some(value);
            self.slots.set_and_swap(key.index, &mut slot);
            slot
        } else {
            None
        }
    }

    /// Takes the value out of the slot of `key` and frees the slot; a second
    /// call on the same key gives `None`.
    pub fn remove(&mut self, key: StateKey<T>) -> (r: Option<T>)
        ensures
            r == lookup(old(self)@, key.index),
            final(self)@ == after_remove(old(self)@, key.index),
    {
        if key.index < self.slots.len() {
            let mut slot = None;
            self.slots.set_and_swap(key.index, &mut slot);
            slot
        } else {
            None
        }
    }
}

/// A slot that was never created, or was removed, holds nothing: removing it
/// again gives nothing and leaves the store as it was.
pub proof fn lemma_remove_absent<T>(slots: Seq<Option<T>>, index: usize)
    ensures
        index >= slots.len() ==> lookup(slots, index) is None,
        lookup(after_remove(slots, index), index) is None,
        after_remove(after_remove(slots, index), index) == after_remove(slots, index),
{
    if index < slots.len() {
        assert(after_remove(after_remove(slots, index), index) =~= after_remove(slots, index));
    }
}

/// A value just inserted is what its handle gives back.
pub proof fn lemma_insert_get<T>(slots: Seq<Option<T>>, value: T)
    requires
        slots.len() < usize::MAX,
    ensures
        lookup(slots.push(Some(value)), slots.len() as usize) == Some(value),
{
}

/// After a value is replaced in place, its handle gives the new value, and no
/// other slot changes.
pub proof fn lemma_replace_get<T>(slots: Seq<Option<T>>, index: usize, other: usize, value: T)
    requires
        lookup(slots, index) is Some,
        other != index,
    ensures
        lookup(after_replace(slots, index, value), index) == Some(value),
        lookup(after_replace(slots, index, value), other) == lookup(slots, other),
{
}

} // verus!
