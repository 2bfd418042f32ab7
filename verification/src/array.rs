use vstd::prelude::*;

verus! {

/// This is my array trait. There are many like it, but this one is mine.
///
/// Generalizes arrays of arbitrary length: a block of exactly `CAPACITY`
/// elements of `Item`.
pub trait Array {
    /// How many elements the array holds
    const CAPACITY: usize;

    /// The item being stored
    type Item;

    /// The elements, in index order.
    spec fn items(&self) -> Seq<Self::Item>;

    /// Every array holds exactly `CAPACITY` elements.
    proof fn lemma_len(&self)
        ensures
            self.items().len() == Self::CAPACITY,
    ;

    /// Immutable slice reference of the array.
    fn slice(&self) -> (slice: &[Self::Item])
        ensures
            slice@ == self.items(),
    ;

    /// Mutable slice reference of the array.
    fn slice_mut(&mut self) -> (slice: &mut [Self::Item])
        ensures
            slice@ == old(self).items(),
            final(self).items() == final(slice)@,
    ;
}

impl<T, const N: usize> Array for [T; N] {
    const CAPACITY: usize = N;

    type Item = T;

    open spec fn items(&self) -> Seq<T> {
        self@
    }

    proof fn lemma_len(&self) {
    }

    fn slice(&self) -> (slice: &[T]) {
        self.as_slice()
    }

    fn slice_mut(&mut self) -> (slice: &mut [T]) {
        self
    }
}

/// The capacity of an array type is the length that the type fixes.
pub proof fn lemma_array_capacity<T, const N: usize>()
    ensures
        <[T; N] as Array>::CAPACITY == N,
{
}

} // verus!
