use crate::utils::{create_array, is_default};
use vstd::layout::size_of;
use vstd::prelude::*;

verus! {

/// See [`with_capacity`](WithCapacity::with_capacity) for more information.
pub trait WithCapacity: Sized {
    /// Input
    type Input;

    /// Whether storage for `input` elements can be asked for. No allocation has
    /// more than `isize::MAX` bytes.
    open spec fn with_capacity_requires(input: Self::Input) -> bool {
        true
    }

    /// What [`with_capacity`](WithCapacity::with_capacity) may create from
    /// `input`. An implementation that says nothing promises nothing.
    open spec fn with_capacity_ensures(input: Self::Input, created: Self) -> bool {
        true
    }

    /// Creates a new instance based on an initial holding capacity provided by `Input`.
    fn with_capacity(input: Self::Input) -> (created: Self)
        requires
            Self::with_capacity_requires(input),
        ensures
            Self::with_capacity_ensures(input, created),
    ;
}

impl<T, const N: usize> WithCapacity for [T; N] where T: Default {
    type Input = usize;

    /// Whatever the input, an array holds `N` default values.
    open spec fn with_capacity_ensures(input: usize, created: Self) -> bool {
        forall|idx: int| 0 <= idx < N ==> is_default(#[trigger] created@[idx])
    }

    fn with_capacity(_input: usize) -> Self {
        let fill = |_idx: usize| -> (value: T)
            ensures
                is_default(value),
            { T::default() };
        create_array(fill)
    }
}

impl<T> WithCapacity for Option<T> {
    type Input = usize;

    /// Whatever the input, the option starts empty.
    open spec fn with_capacity_ensures(input: usize, created: Self) -> bool {
        created is None
    }

    fn with_capacity(_input: usize) -> Self {
        None
    }
}

impl<T> WithCapacity for Vec<T> {
    type Input = usize;

    open spec fn with_capacity_requires(input: usize) -> bool {
        input * size_of::<T>() <= isize::MAX
    }

    /// The vector starts empty.
    open spec fn with_capacity_ensures(input: usize, created: Self) -> bool {
        created@ == Seq::<T>::empty()
    }

    fn with_capacity(input: usize) -> Self {
        Vec::with_capacity(input)
    }
}

} // verus!
