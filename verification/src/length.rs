use vstd::prelude::*;

verus! {

/// See [`length`](Length::length) for more information.
pub trait Length {
    /// What [`length`](Length::length) may hand back for this value. An
    /// implementation that says nothing promises nothing.
    open spec fn length_ensures(&self, length: usize) -> bool {
        true
    }

    /// Holds a certain number of elements.
    fn length(&self) -> (length: usize)
        ensures
            self.length_ensures(length),
    ;
}

impl<T> Length for Option<T> {
    open spec fn length_ensures(&self, length: usize) -> bool {
        length == (if self is Some {
            1usize
        } else {
            0usize
        })
    }

    fn length(&self) -> usize {
        if self.is_some() {
            1
        } else {
            0
        }
    }
}

impl<'a, T> Length for &'a [T] {
    open spec fn length_ensures(&self, length: usize) -> bool {
        length == self@.len()
    }

    fn length(&self) -> usize {
        self.len()
    }
}

impl<'a, T> Length for &'a mut [T] {
    open spec fn length_ensures(&self, length: usize) -> bool {
        length == self@.len()
    }

    fn length(&self) -> usize {
        self.len()
    }
}

impl<T, const N: usize> Length for [T; N] {
    open spec fn length_ensures(&self, length: usize) -> bool {
        length == N
    }

    fn length(&self) -> usize {
        self.as_slice().len()
    }
}

impl<T> Length for Vec<T> {
    open spec fn length_ensures(&self, length: usize) -> bool {
        length == self@.len()
    }

    fn length(&self) -> usize {
        self.len()
    }
}

} // verus!
