use vstd::prelude::*;

verus! {

/// See [`Swap`](Swap::swap) for more information.
pub trait Swap: Sized {
    /// Input
    type Input;

    /// Output
    type Output;

    /// What a swap by `input` may leave of `before` and hand back. An
    /// implementation that says nothing promises nothing.
    open spec fn swap_ensures(
        before: Self,
        input: Self::Input,
        after: Self,
        output: Self::Output,
    ) -> bool {
        true
    }

    /// Swaps two elements referencied by `Input`.
    fn swap(&mut self, input: Self::Input) -> (output: Self::Output)
        ensures
            Self::swap_ensures(*old(self), input, *final(self), output),
    ;
}

/// `items` with the elements at `a` and `b` exchanged.
pub open spec fn swapped<T>(items: Seq<T>, a: int, b: int) -> Seq<T>
    recommends
        0 <= a < items.len(),
        0 <= b < items.len(),
{
    items.update(a, items[b]).update(b, items[a])
}

/// The elements at two indices change places where both indices are in range;
/// otherwise nothing changes and the swap is an error.
pub open spec fn swap_outcome<T>(
    before: Seq<T>,
    input: [usize; 2],
    after: Seq<T>,
    output: Result<(), ()>,
) -> bool {
    if input@[0] >= before.len() || input@[1] >= before.len() {
        output == Err::<(), ()>(()) && after == before
    } else {
        output == Ok::<(), ()>(()) && after == swapped(before, input@[0] as int, input@[1] as int)
    }
}

/// `std`'s `<[T]>::swap`: the elements at `a` and `b` change places and every
/// other element stays. `std` panics on an index out of range, which the
/// precondition rules out.
#[verifier::external_body]
pub(crate) fn slice_swap<T>(slice: &mut [T], a: usize, b: usize)
    requires
        a < old(slice)@.len(),
        b < old(slice)@.len(),
    ensures
        final(slice)@ == swapped(old(slice)@, a as int, b as int),
{
    slice.swap(a, b);
}

impl<T, const N: usize> Swap for [T; N] {
    type Input = [usize; 2];

    type Output = Result<(), ()>;

    open spec fn swap_ensures(
        before: Self,
        input: [usize; 2],
        after: Self,
        output: Result<(), ()>,
    ) -> bool {
        swap_outcome(before@, input, after@, output)
    }

    fn swap(&mut self, input: [usize; 2]) -> Result<(), ()> {
        let a = input[0];
        let b = input[1];
        if a >= N || b >= N {
            return Err(());
        }
        let slice: &mut [T] = self;
        slice_swap(slice, a, b);
        Ok(())
    }
}

impl<'a, T> Swap for &'a mut [T] {
    type Input = [usize; 2];

    type Output = Result<(), ()>;

    open spec fn swap_ensures(
        before: Self,
        input: [usize; 2],
        after: Self,
        output: Result<(), ()>,
    ) -> bool {
        swap_outcome(before@, input, after@, output)
    }

    fn swap(&mut self, input: [usize; 2]) -> Result<(), ()> {
        let a = input[0];
        let b = input[1];
        if a >= self.len() || b >= self.len() {
            return Err(());
        }
        slice_swap(self, a, b);
        Ok(())
    }
}

impl<T> Swap for Vec<T> {
    type Input = [usize; 2];

    type Output = Result<(), ()>;

    open spec fn swap_ensures(
        before: Self,
        input: [usize; 2],
        after: Self,
        output: Result<(), ()>,
    ) -> bool {
        swap_outcome(before@, input, after@, output)
    }

    fn swap(&mut self, input: [usize; 2]) -> Result<(), ()> {
        let a = input[0];
        let b = input[1];
        if a >= self.len() || b >= self.len() {
            return Err(());
        }
        let slice: &mut [T] = self.as_mut_slice();
        slice_swap(slice, a, b);
        Ok(())
    }
}

} // verus!
