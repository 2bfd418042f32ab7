use vstd::prelude::*;

verus! {

/// See [`Truncate`](Truncate::truncate) for more information.
pub trait Truncate: Sized {
    /// Input
    type Input;

    /// Output
    type Output;

    /// What [`truncate`](Truncate::truncate) may leave of `before` and hand
    /// back. An implementation that says nothing promises nothing.
    open spec fn truncate_ensures(
        before: Self,
        input: Self::Input,
        after: Self,
        output: Self::Output,
    ) -> bool {
        true
    }

    /// Truncates the storage, delimiting its length by `Input`.
    fn truncate(&mut self, input: Self::Input) -> (output: Self::Output)
        ensures
            Self::truncate_ensures(*old(self), input, *final(self), output),
    ;
}

/// The first `len` elements of `items`, or all of them where there are no more.
pub open spec fn truncated<T>(items: Seq<T>, len: usize) -> Seq<T> {
    if len <= items.len() {
        items.take(len as int)
    } else {
        items
    }
}

impl<T> Truncate for Option<T> {
    type Input = usize;

    type Output = ();

    /// A length of zero empties the option; any other leaves it as it is.
    open spec fn truncate_ensures(before: Self, input: usize, after: Self, output: ()) -> bool {
        if input == 0 {
            after is None
        } else {
            after == before
        }
    }

    fn truncate(&mut self, input: usize) {
        if input == 0 {
            *self = None;
        }
    }
}

impl<T> Truncate for Vec<T> {
    type Input = usize;

    type Output = ();

    /// The first `input` elements stay; a vector that is not longer stays as it is.
    open spec fn truncate_ensures(before: Self, input: usize, after: Self, output: ()) -> bool {
        after@ == truncated(before@, input)
    }

    fn truncate(&mut self, input: usize) {
        self.truncate(input);
    }
}

} // verus!
