use vstd::prelude::*;

verus! {

/// Storage is anything that can hold a collection of items
pub trait Storage {
    /// Storage item
    type Item;
}

impl<T> Storage for Option<T> {
    type Item = T;
}

impl<T, const N: usize> Storage for [T; N] {
    type Item = T;
}

impl<'a, T> Storage for &'a [T] {
    type Item = T;
}

impl<'a, T> Storage for &'a mut [T] {
    type Item = T;
}

impl<T> Storage for Vec<T> {
    type Item = T;
}

} // verus!
