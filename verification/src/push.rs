use vstd::prelude::*;

verus! {

/// See [`push`](Push::push) for more information.
pub trait Push: Sized {
    /// Error
    type Error;

    /// Input
    type Input;

    /// Output
    type Ok;

    /// What a push of `input` into `before` may leave behind and hand back. An
    /// implementation that says nothing promises nothing.
    open spec fn push_ensures(
        before: Self,
        input: Self::Input,
        after: Self,
        result: Result<Self::Ok, Self::Error>,
    ) -> bool {
        true
    }

    /// Pushes an element, increasing the storage length.
    fn push(&mut self, input: Self::Input) -> (result: Result<Self::Ok, Self::Error>)
        ensures
            Self::push_ensures(*old(self), input, *final(self), result),
    ;
}

/// A push into storage of a fixed capacity: the element is appended where
/// there is room; full storage stays as it is and hands the element back.
pub open spec fn bounded_push_outcome<T>(
    before: Seq<T>,
    capacity: nat,
    input: T,
    after: Seq<T>,
    result: Result<(), T>,
) -> bool {
    if before.len() < capacity {
        result is Ok && after == before.push(input)
    } else {
        result == Err::<(), T>(input) && after == before
    }
}

impl<T> Push for Option<T> {
    type Error = T;

    type Input = T;

    type Ok = ();

    /// An empty option takes the element; a full one hands it back.
    open spec fn push_ensures(before: Self, input: T, after: Self, result: Result<(), T>) -> bool {
        match before {
            Some(_) => result == Err::<(), T>(input) && after == before,
            None => result == Ok::<(), T>(()) && after == Some(input),
        }
    }

    fn push(&mut self, input: T) -> Result<(), T> {
        if self.is_some() {
            Err(input)
        } else {
            *self = Some(input);
            Ok(())
        }
    }
}

impl<T> Push for Vec<T> {
    type Error = core::convert::Infallible;

    type Input = T;

    type Ok = ();

    /// The element is appended; this never fails.
    open spec fn push_ensures(
        before: Self,
        input: T,
        after: Self,
        result: Result<(), core::convert::Infallible>,
    ) -> bool {
        result is Ok && after@ == before@.push(input)
    }

    fn push(&mut self, input: T) -> Result<(), core::convert::Infallible> {
        self.push(input);
        Ok(())
    }
}

} // verus!
