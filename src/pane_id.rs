use std::marker::PhantomData;
use vstd::prelude::*;

verus! {

/// A strongly typed handle for a pane. `T` only marks which kind of pane the
/// handle is meant for; `()` is the generic handle.
#[derive(Debug)]
pub struct PaneId<T = ()> {
    pub id: usize,
    pub _marker: PhantomData<T>,
}

impl<T> PaneId<T> {
    /// Hands out a fresh handle from `counter` and advances the counter, so
    /// that handles drawn from one counter are pairwise distinct.
    pub fn new(counter: &mut usize) -> (r: Self)
        requires
            *old(counter) < usize::MAX,
        ensures
            r.id == *old(counter),
            *final(counter) == *old(counter) + 1,
    {
        let id = *counter;
        *counter = *counter + 1;
        PaneId { id, _marker: PhantomData }
    }

    /// A handle with the given raw number.
    pub fn from_raw(id: usize) -> (r: Self)
        ensures
            r.id == id,
    {
        PaneId { id, _marker: PhantomData }
    }

    /// The raw number of the handle.
    pub fn id(&self) -> (r: usize)
        ensures
            r == self.id,
    {
        self.id
    }

    /// The same number as a handle for another kind of pane.
    pub fn cast<U>(self) -> (r: PaneId<U>)
        ensures
            r.id == self.id,
    {
        PaneId { id: self.id, _marker: PhantomData }
    }

    /// Whether two handles name the same pane.
    pub fn same(&self, other: &PaneId<T>) -> (r: bool)
        ensures
            r == (self.id == other.id),
    {
        self.id == other.id
    }
}

impl<T> Clone for PaneId<T> {
    fn clone(&self) -> (r: Self)
        ensures
            r == *self,
    {
        PaneId { id: self.id, _marker: PhantomData }
    }
}

impl<T> Copy for PaneId<T> {
}

impl<T> PartialEq for PaneId<T> {
    fn eq(&self, other: &PaneId<T>) -> (r: bool) {
        self.id == other.id
    }
}

impl<T> vstd::std_specs::cmp::PartialEqSpecImpl for PaneId<T> {
    open spec fn obeys_eq_spec() -> bool {
        true
    }

    open spec fn eq_spec(&self, other: &PaneId<T>) -> bool {
        self.id == other.id
    }
}

impl<T> Eq for PaneId<T> {
}

} // verus!
