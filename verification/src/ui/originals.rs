use vstd::prelude::*;
use core::marker::PhantomData;

verus! {

/// Something that holds parts and hands one out for a token of type `T`.
pub trait HoldingOriginals<T> {
    /// The kind of part that is held.
    type Held;

    /// Whether a part is held for `token`.
    spec fn holds(&self, token: &T) -> bool;

    /// The part for `token`.
    fn get_component(&mut self, token: &T) -> (r: &mut Self::Held)
        requires
            old(self).holds(token),
    ;
}

/// Something that remembers under which token a part of the kind `D` was
/// put away.
pub trait Original<D, T> {
    fn token(&self) -> &T;
}

/// The place of a part of the kind `D` in a list of parts.
pub struct IndexedOriginal<D> {
    index: usize,
    originally: PhantomData<D>,
}

impl<D> IndexedOriginal<D> {
    pub closed spec fn spec_index(&self) -> usize {
        self.index
    }

    pub fn new(index: usize) -> (r: Self)
        ensures
            r.spec_index() == index,
    {
        Self { index, originally: PhantomData }
    }

    pub fn index(&self) -> (r: usize)
        ensures
            r == self.spec_index(),
    {
        self.index
    }
}

impl<D> Original<D, usize> for IndexedOriginal<D> {
    fn token(&self) -> (r: &usize)
        ensures
            *r == self.spec_index(),
    {
        &self.index
    }
}

} // verus!
