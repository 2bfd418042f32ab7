use vstd::prelude::*;

verus! {

/// See [`capacity`](Capacity::capacity) for more information.
pub trait Capacity {
    /// What [`capacity`](Capacity::capacity) may hand back for this value. An
    /// implementation that says nothing promises nothing.
    open spec fn capacity_ensures(&self, capacity: usize) -> bool {
        true
    }

    /// The number of elements the implementation has pre-allocated as an internal buffer. Not
    /// necessarily the current number of inserted elements.
    fn capacity(&self) -> (capacity: usize)
        ensures
            self.capacity_ensures(capacity),
    ;
}

impl<T> Capacity for Option<T> {
    /// An option has room for one element.
    open spec fn capacity_ensures(&self, capacity: usize) -> bool {
        capacity == 1
    }

    fn capacity(&self) -> usize {
        1
    }
}

impl<T, const N: usize> Capacity for [T; N] {
    /// An array has room for its `N` elements.
    open spec fn capacity_ensures(&self, capacity: usize) -> bool {
        capacity == N
    }

    fn capacity(&self) -> usize {
        N
    }
}

impl<'a, T> Capacity for &'a [T] {
    /// A slice has room for the elements it holds.
    open spec fn capacity_ensures(&self, capacity: usize) -> bool {
        capacity == self@.len()
    }

    fn capacity(&self) -> usize {
        self.len()
    }
}

impl<'a, T> Capacity for &'a mut [T] {
    /// A slice has room for the elements it holds.
    open spec fn capacity_ensures(&self, capacity: usize) -> bool {
        capacity == self@.len()
    }

    fn capacity(&self) -> usize {
        self.len()
    }
}

/// `std`'s `Vec::capacity`: how many elements the vector can hold without
/// allocating again, which is never less than it holds.
#[verifier::external_body]
fn vec_capacity<T>(vec: &Vec<T>) -> (capacity: usize)
    ensures
        capacity >= vec@.len(),
{
    vec.capacity()
}

impl<T> Capacity for Vec<T> {
    /// A vector has room for at least the elements it holds; how much more is
    /// up to its allocator.
    open spec fn capacity_ensures(&self, capacity: usize) -> bool {
        capacity >= self@.len()
    }

    fn capacity(&self) -> usize {
        vec_capacity(self)
    }
}

} // verus!
