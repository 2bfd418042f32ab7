use vstd::layout::size_of;
use vstd::prelude::*;

verus! {

/// See [`capacity_upper_bound`](CapacityUpperBound::capacity_upper_bound) for more information.
pub trait CapacityUpperBound {
    /// Whether the bound is defined for this value. It is not for heap storage
    /// of elements without size.
    open spec fn capacity_upper_bound_requires(&self) -> bool {
        true
    }

    /// What [`capacity_upper_bound`](CapacityUpperBound::capacity_upper_bound)
    /// may hand back for this value. An implementation that says nothing
    /// promises nothing.
    open spec fn capacity_upper_bound_ensures(&self, bound: usize) -> bool {
        true
    }

    /// The maximum theoretical number of elements the implementation is able to store.
    fn capacity_upper_bound(&self) -> (bound: usize)
        requires
            self.capacity_upper_bound_requires(),
        ensures
            self.capacity_upper_bound_ensures(bound),
    ;
}

/// How many elements of `size` bytes fit into the largest allocation, which has
/// `isize::MAX` bytes: none if one element is already too large.
pub open spec fn heap_bound(size: nat) -> nat
    recommends
        size != 0,
{
    if size > isize::MAX as nat {
        0
    } else {
        (isize::MAX as nat) / size
    }
}

impl<T> CapacityUpperBound for Option<T> {
    open spec fn capacity_upper_bound_ensures(&self, bound: usize) -> bool {
        bound == 1
    }

    fn capacity_upper_bound(&self) -> usize {
        1
    }
}

impl<T, const N: usize> CapacityUpperBound for [T; N] {
    open spec fn capacity_upper_bound_ensures(&self, bound: usize) -> bool {
        bound == N
    }

    fn capacity_upper_bound(&self) -> usize {
        N
    }
}

impl<'a, T> CapacityUpperBound for &'a [T] {
    open spec fn capacity_upper_bound_ensures(&self, bound: usize) -> bool {
        bound == self@.len()
    }

    fn capacity_upper_bound(&self) -> usize {
        self.len()
    }
}

impl<'a, T> CapacityUpperBound for &'a mut [T] {
    open spec fn capacity_upper_bound_ensures(&self, bound: usize) -> bool {
        bound == self@.len()
    }

    fn capacity_upper_bound(&self) -> usize {
        self.len()
    }
}

impl<T> CapacityUpperBound for Vec<T> {
    open spec fn capacity_upper_bound_requires(&self) -> bool {
        size_of::<T>() != 0
    }

    open spec fn capacity_upper_bound_ensures(&self, bound: usize) -> bool {
        bound == heap_bound(size_of::<T>())
    }

    fn capacity_upper_bound(&self) -> usize {
        capacity_upper_bound_for_heap::<T>()
    }
}

/// The number of elements of `T` that one heap allocation can hold at most.
pub fn capacity_upper_bound_for_heap<T>() -> (bound: usize)
    requires
        size_of::<T>() != 0,
    ensures
        bound == heap_bound(size_of::<T>()),
{
    let size_of_t = core::mem::size_of::<T>();
    let isize_max_usize = isize::MAX as usize;
    if size_of_t > isize_max_usize {
        0
    } else {
        isize_max_usize / size_of_t
    }
}

} // verus!
