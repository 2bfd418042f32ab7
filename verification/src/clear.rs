use vstd::prelude::*;

verus! {

/// See [`clear`](Clear::clear) for more information.
pub trait Clear: Sized {
    /// What [`clear`](Clear::clear) may leave of `before`. An implementation
    /// that says nothing promises nothing.
    open spec fn clear_ensures(before: Self, after: Self) -> bool {
        true
    }

    /// "Clears" the internal buffer, "erasing" all elements.
    fn clear(&mut self)
        ensures
            Self::clear_ensures(*old(self), *final(self)),
    ;
}

impl<T> Clear for Option<T> {
    /// The option is left empty.
    open spec fn clear_ensures(before: Self, after: Self) -> bool {
        after is None
    }

    fn clear(&mut self) {
        let _ = self.take();
    }
}

impl<T> Clear for Vec<T> {
    /// The vector is left empty.
    open spec fn clear_ensures(before: Self, after: Self) -> bool {
        after@ == Seq::<T>::empty()
    }

    fn clear(&mut self) {
        self.clear()
    }
}

} // verus!
