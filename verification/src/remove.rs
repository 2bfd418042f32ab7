use vstd::prelude::*;

verus! {

/// See [`remove`](Remove::remove) for more information.
pub trait Remove: Sized {
    /// Error
    type Error;

    /// Input
    type Input;

    /// Ok
    type Ok;

    /// What a removal at `idx` may leave of `before` and hand back. An
    /// implementation that says nothing promises nothing.
    open spec fn remove_ensures(
        before: Self,
        idx: Self::Input,
        after: Self,
        result: Result<Self::Ok, Self::Error>,
    ) -> bool {
        true
    }

    /// Removes an element referenced by `Input`.
    fn remove(&mut self, idx: Self::Input) -> (result: Result<Self::Ok, Self::Error>)
        ensures
            Self::remove_ensures(*old(self), idx, *final(self), result),
    ;
}

/// A removal from a sequence: the element at the index leaves and comes back;
/// an index at or beyond the end is an error and changes nothing.
pub open spec fn remove_outcome<T>(
    before: Seq<T>,
    idx: usize,
    after: Seq<T>,
    result: Result<T, ()>,
) -> bool {
    if idx >= before.len() {
        result is Err && after == before
    } else {
        result == Ok::<T, ()>(before[idx as int]) && after == before.remove(idx as int)
    }
}

impl<T> Remove for Vec<T> {
    type Error = ();

    type Input = usize;

    type Ok = T;

    /// The element at the index leaves the vector and comes back; an index at
    /// or beyond the end is an error and changes nothing.
    open spec fn remove_ensures(
        before: Self,
        idx: usize,
        after: Self,
        result: Result<T, ()>,
    ) -> bool {
        remove_outcome(before@, idx, after@, result)
    }

    fn remove(&mut self, idx: usize) -> Result<T, ()> {
        if idx >= self.len() {
            return Err(());
        }
        Ok(self.remove(idx))
    }
}

} // verus!
