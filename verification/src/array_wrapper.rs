use crate::array::Array;
use crate::utils::{create_array, is_default, ArrayGuard};
use vstd::prelude::*;

verus! {

/// An index that lies at or beyond the number of elements.
#[derive(Debug, Clone, Copy, PartialEq, Eq, Structural)]
pub struct IndexOutOfRange {
    /// The index that was asked for.
    pub index: usize,
    /// How many elements there are.
    pub length: usize,
}

/// A source that ran dry before it had handed out as many elements as needed.
#[derive(Debug, Clone, Copy, PartialEq, Eq, Structural)]
pub struct SequenceLengthMismatch {
    /// How many elements were needed.
    pub expected: usize,
    /// How many elements the source handed out.
    pub actual: usize,
}

/// Why reading an array from an ordered source failed.
#[derive(Debug, PartialEq, Eq)]
pub enum SequenceError<E> {
    /// The source held fewer elements than the array needs.
    LengthMismatch(SequenceLengthMismatch),
    /// The source failed while it was asked for an element.
    Source(E),
}

/// Wraps an array of arbitrary length. Necessary for third-party and std implementations.
pub struct ArrayWrapper<A> {
    pub(crate) array: A,
}

impl<A> View for ArrayWrapper<A> where A: Array {
    type V = Seq<A::Item>;

    /// The wrapped elements, in index order.
    open spec fn view(&self) -> Seq<A::Item> {
        self.inner().items()
    }
}

impl<A> ArrayWrapper<A> where A: Array {
    /// The wrapped array.
    pub closed spec fn inner(&self) -> A {
        self.array
    }

    /// Every wrapper holds exactly `CAPACITY` elements.
    pub proof fn lemma_len(&self)
        ensures
            self@.len() == A::CAPACITY,
    {
        self.array.lemma_len();
    }

    /// Wraps `array` into this structure.
    pub fn new(array: A) -> (wrapper: Self)
        ensures
            wrapper.inner() == array,
    {
        Self { array }
    }

    /// Unwraps the array.
    pub fn into_inner(self) -> (array: A)
        ensures
            array == self.inner(),
    {
        self.array
    }

    /// The number of elements, which is fixed with the array's type.
    pub fn length(&self) -> (length: usize)
        ensures
            length == A::CAPACITY,
            length == self@.len(),
    {
        proof {
            self.lemma_len();
        }
        self.array.slice().len()
    }

    /// The element at `idx`, or the reason why there is none.
    pub fn get(&self, idx: usize) -> (result: Result<&A::Item, IndexOutOfRange>)
        ensures
            idx < self@.len() ==> result == Ok::<&A::Item, IndexOutOfRange>(&self@[idx as int]),
            idx >= self@.len() ==> result == Err::<&A::Item, IndexOutOfRange>(
                IndexOutOfRange { index: idx, length: self@.len() as usize },
            ),
    {
        proof {
            self.lemma_len();
        }
        let slice = self.array.slice();
        if idx < slice.len() {
            Ok(&slice[idx])
        } else {
            Err(IndexOutOfRange { index: idx, length: slice.len() })
        }
    }

    /// Mutable access to the element at `idx`, or the reason why there is none.
    pub fn get_mut(&mut self, idx: usize) -> (result: Result<&mut A::Item, IndexOutOfRange>)
        ensures
            idx < old(self)@.len() ==> result is Ok && *result->Ok_0 == old(self)@[idx as int]
                && final(self)@ == old(self)@.update(idx as int, *final(result->Ok_0)),
            idx >= old(self)@.len() ==> result is Err && result->Err_0 == (IndexOutOfRange {
                index: idx,
                length: old(self)@.len() as usize,
            }) && final(self)@ == old(self)@,
    {
        proof {
            self.lemma_len();
        }
        let length = self.array.slice().len();
        if idx < length {
            let slice = self.array.slice_mut();
            Ok(&mut slice[idx])
        } else {
            Err(IndexOutOfRange { index: idx, length })
        }
    }

    /// Mutable access to the element at `idx`, which must exist.
    pub fn index_mut(&mut self, idx: usize) -> (item: &mut A::Item)
        requires
            idx < old(self)@.len(),
        ensures
            *item == old(self)@[idx as int],
            final(self)@ == old(self)@.update(idx as int, *final(item)),
    {
        let slice = self.array.slice_mut();
        &mut slice[idx]
    }

    /// Immutable slice reference of the wrapped array.
    pub fn as_slice(&self) -> (slice: &[A::Item])
        ensures
            slice@ == self@,
    {
        self.array.slice()
    }

    /// Mutable slice reference of the wrapped array.
    pub fn as_mut_slice(&mut self) -> (slice: &mut [A::Item])
        ensures
            slice@ == old(self)@,
            final(self)@ == final(slice)@,
    {
        self.array.slice_mut()
    }

    /// Mutable slice reference of the wrapped array.
    pub fn as_slice_mut(&mut self) -> (slice: &mut [A::Item])
        ensures
            slice@ == old(self)@,
            final(self)@ == final(slice)@,
    {
        self.array.slice_mut()
    }

    /// How many elements a wrapper of this type holds.
    pub fn size() -> (size: usize)
        ensures
            size == A::CAPACITY,
    {
        A::CAPACITY
    }
}

impl<A> AsRef<A> for ArrayWrapper<A> where A: Array {
    fn as_ref(&self) -> (array: &A)
        ensures
            ({
                let array: &A = array;
                *array == self.inner()
            }),
    {
        &self.array
    }
}

impl<A> AsRef<[A::Item]> for ArrayWrapper<A> where A: Array {
    fn as_ref(&self) -> (slice: &[A::Item])
        ensures
            ({
                let slice: &[A::Item] = slice;
                slice@ == self@
            }),
    {
        self.array.slice()
    }
}

impl<A> AsMut<A> for ArrayWrapper<A> where A: Array {
    fn as_mut(&mut self) -> (array: &mut A)
        ensures
            ({
                let array: &mut A = array;
                *array == old(self).inner() && final(self).inner() == *final(array)
            }),
    {
        &mut self.array
    }
}

impl<A> AsMut<[A::Item]> for ArrayWrapper<A> where A: Array {
    fn as_mut(&mut self) -> (slice: &mut [A::Item])
        ensures
            ({
                let slice: &mut [A::Item] = slice;
                slice@ == old(self)@ && final(self)@ == final(slice)@
            }),
    {
        self.array.slice_mut()
    }
}

impl<A> core::borrow::Borrow<A> for ArrayWrapper<A> where A: Array {
    fn borrow(&self) -> (array: &A)
        ensures
            ({
                let array: &A = array;
                *array == self.inner()
            }),
    {
        &self.array
    }
}

impl<A> core::borrow::Borrow<[A::Item]> for ArrayWrapper<A> where A: Array {
    fn borrow(&self) -> (slice: &[A::Item])
        ensures
            ({
                let slice: &[A::Item] = slice;
                slice@ == self@
            }),
    {
        self.array.slice()
    }
}

impl<A> core::borrow::BorrowMut<A> for ArrayWrapper<A> where A: Array {
    fn borrow_mut(&mut self) -> (array: &mut A)
        ensures
            ({
                let array: &mut A = array;
                *array == old(self).inner() && final(self).inner() == *final(array)
            }),
    {
        &mut self.array
    }
}

impl<A> core::borrow::BorrowMut<[A::Item]> for ArrayWrapper<A> where A: Array {
    fn borrow_mut(&mut self) -> (slice: &mut [A::Item])
        ensures
            ({
                let slice: &mut [A::Item] = slice;
                slice@ == old(self)@ && final(self)@ == final(slice)@
            }),
    {
        self.array.slice_mut()
    }
}

impl<A> Clone for ArrayWrapper<A> where A: Array + Clone, A::Item: Clone {
    fn clone(&self) -> (copy: Self)
        ensures
            call_ensures(A::clone, (&self.inner(),), copy.inner()),
    {
        Self { array: self.array.clone() }
    }
}

impl<A> Copy for ArrayWrapper<A> where A: Array + Copy, A::Item: Copy {

}

impl<T, const N: usize> Default for ArrayWrapper<[T; N]> where T: Default {
    fn default() -> (wrapper: Self)
        ensures
            forall|idx: int| 0 <= idx < N ==> is_default(#[trigger] wrapper@[idx]),
    {
        let fill = |_idx: usize| -> (value: T)
            ensures
                is_default(value),
            { T::default() };
        ArrayWrapper { array: create_array(fill) }
    }
}

impl<A> core::ops::Deref for ArrayWrapper<A> where A: Array {
    type Target = A;

    fn deref(&self) -> (array: &A)
        ensures
            *array == self.inner(),
    {
        &self.array
    }
}

impl<A> core::ops::DerefMut for ArrayWrapper<A> where A: Array {
    fn deref_mut(&mut self) -> (array: &mut A)
        ensures
            *array == old(self).inner(),
            final(self).inner() == *final(array),
    {
        &mut self.array
    }
}

impl<A> From<A> for ArrayWrapper<A> where A: Array {
    fn from(from: A) -> (wrapper: Self)
        ensures
            wrapper.inner() == from,
    {
        Self { array: from }
    }
}

impl<A> vstd::std_specs::convert::FromSpecImpl<A> for ArrayWrapper<A> where A: Array {
    open spec fn obeys_from_spec() -> bool {
        true
    }

    closed spec fn from_spec(from: A) -> Self {
        ArrayWrapper { array: from }
    }
}

impl<A> core::ops::Index<usize> for ArrayWrapper<A> where A: Array {
    type Output = A::Item;

    fn index(&self, idx: usize) -> (item: &A::Item)
        ensures
            *item == self@[idx as int],
    {
        &self.array.slice()[idx]
    }
}

impl<A> vstd::std_specs::core::IndexSpecImpl<usize> for ArrayWrapper<A> where A: Array {
    open spec fn index_req(&self, idx: &usize) -> bool {
        *idx < self@.len()
    }
}

impl<'a, A> IntoIterator for &'a ArrayWrapper<A> where A: Array {
    type Item = &'a A::Item;

    type IntoIter = core::slice::Iter<'a, A::Item>;

    fn into_iter(self) -> (iter: core::slice::Iter<'a, A::Item>)
        ensures
            vstd::std_specs::iter::IteratorSpec::remaining(&iter) == self@.as_ref(),
            vstd::std_specs::slice::into_iter_elts(iter) == self@,
    {
        self.array.slice().iter()
    }
}

/// What one answer of an ordered source means for the element at `idx` of an
/// array of `expected` elements: the element itself, a source that ran dry
/// after `idx` elements, or the source's own failure.
pub open spec fn element_outcome<E, T>(
    expected: usize,
    idx: usize,
    answer: Result<Option<T>, E>,
) -> Result<T, SequenceError<E>> {
    match answer {
        Ok(Some(value)) => Ok(value),
        Ok(None) => Err(
            SequenceError::LengthMismatch(SequenceLengthMismatch { expected, actual: idx }),
        ),
        Err(error) => Err(SequenceError::Source(error)),
    }
}

/// Every element of `items` is what `next` hands out at the element's own index.
pub open spec fn read_by<E, F, T>(next: F, items: Seq<T>) -> bool where
    F: FnMut(usize) -> Result<Option<T>, E>,
 {
    forall|idx: int|
        0 <= idx < items.len() ==> call_ensures(
            next,
            (idx as usize,),
            Ok::<Option<T>, E>(Some(#[trigger] items[idx])),
        )
}

/// `next` hands out an element at every index below `idx`, and at `idx` an
/// answer that ends the reading of `expected` elements with `error`.
pub open spec fn stops_at<E, F, T>(
    next: F,
    expected: usize,
    idx: usize,
    error: SequenceError<E>,
) -> bool where F: FnMut(usize) -> Result<Option<T>, E> {
    &&& exists|answer: Result<Option<T>, E>| #[trigger]
        call_ensures(next, (idx,), answer) && element_outcome(expected, idx, answer) == Err::<
            T,
            SequenceError<E>,
        >(error)
    &&& exists|prefix: Seq<T>| #[trigger] prefix.len() == idx && read_by(next, prefix)
}

/// Reading stops with `error` at some index below `expected`.
pub open spec fn stops_below<E, F, T>(
    next: F,
    expected: usize,
    error: SequenceError<E>,
) -> bool where F: FnMut(usize) -> Result<Option<T>, E> {
    exists|idx: usize| idx < expected && #[trigger] stops_at(next, expected, idx, error)
}

/// What reading `expected` elements from `next` may hand back: the first
/// `expected` elements of the source in its order, or the reason why the
/// reading stopped at the first index that gave no element.
pub open spec fn sequence_outcome<E, F, T>(
    next: F,
    expected: usize,
    result: Result<Seq<T>, SequenceError<E>>,
) -> bool where F: FnMut(usize) -> Result<Option<T>, E> {
    match result {
        Ok(items) => items.len() == expected && read_by(next, items),
        Err(error) => stops_below(next, expected, error),
    }
}

/// The first `expected` elements of `source`, or how far it fell short.
pub open spec fn read_sequence<T>(source: Seq<T>, expected: usize) -> Result<
    Seq<T>,
    SequenceLengthMismatch,
> {
    if source.len() >= expected {
        Ok(source.take(expected as int))
    } else {
        Err(SequenceLengthMismatch { expected, actual: source.len() as usize })
    }
}

/// What is read depends on the first `expected` elements of the source alone:
/// whatever follows them stays unread.
pub proof fn lemma_read_sequence_ignores_rest<T>(source: Seq<T>, expected: usize)
    requires
        source.len() >= expected,
    ensures
        read_sequence(source, expected) == read_sequence(source.take(expected as int), expected),
        read_sequence(source, expected) == Ok::<Seq<T>, SequenceLengthMismatch>(
            source.take(expected as int),
        ),
{
    assert(source.take(expected as int).take(expected as int) =~= source.take(expected as int));
}

/// Decides what one answer of an ordered source means for the element at `idx`.
pub fn classify_element<E, T>(
    expected: usize,
    idx: usize,
    answer: Result<Option<T>, E>,
) -> (outcome: Result<T, SequenceError<E>>)
    ensures
        outcome == element_outcome(expected, idx, answer),
{
    match answer {
        Ok(Some(value)) => Ok(value),
        Ok(None) => Err(
            SequenceError::LengthMismatch(SequenceLengthMismatch { expected, actual: idx }),
        ),
        Err(error) => Err(SequenceError::Source(error)),
    }
}

impl<T, const N: usize> ArrayWrapper<[T; N]> {
    /// Reads exactly `N` elements from an ordered source of unknown length.
    ///
    /// `next(idx)` hands out the source's element at position `idx`, `None` where
    /// the source has ended. It is asked in ascending order, for no index at or
    /// beyond `N`, and never again after the first answer that is no element.
    pub fn try_from_sequence<E, F>(next: F) -> (result: Result<Self, SequenceError<E>>) where
        F: FnMut(usize) -> Result<Option<T>, E>,

        requires
            forall|idx: usize| idx < N ==> call_requires(next, (idx,)),
        ensures
            sequence_outcome(
                next,
                N,
                match result {
                    Ok(wrapper) => Ok(wrapper@),
                    Err(error) => Err(error),
                },
            ),
            N == 0 ==> result is Ok,
    {
        broadcast use vstd::function::group_function_axioms;

        let mut source = next;
        let mut guard: ArrayGuard<T, N> = ArrayGuard::new();
        let mut idx: usize = 0;
        while idx < N
            invariant
                source == next,
                idx <= N,
                guard@.len() == idx,
                forall|i: usize| i < N ==> call_requires(next, (i,)),
                read_by(next, guard@),
            decreases N - idx,
        {
            let answer = source(idx);
            let ghost asked = answer;
            match classify_element(N, idx, answer) {
                Ok(value) => {
                    guard.write(value);
                },
                Err(error) => {
                    proof {
                        assert(call_ensures(next, (idx,), asked) && element_outcome(N, idx, asked)
                            == Err::<T, SequenceError<E>>(error));
                        assert(guard@.len() == idx && read_by(next, guard@));
                        assert(stops_at(next, N, idx, error));
                        assert(stops_below(next, N, error));
                    }
                    return Err(error);
                },
            }
            idx = idx + 1;
        }
        Ok(ArrayWrapper { array: guard.finish() })
    }
}

/// A source that holds exactly the elements of `source`, and never fails, leaves
/// the reading no choice: the wrapper holds the first `expected` elements, and a
/// source that is too short is reported with both lengths.
pub proof fn lemma_sequence_outcome_of_source<E, F, T>(
    next: F,
    source: Seq<T>,
    expected: usize,
    result: Result<Seq<T>, SequenceError<E>>,
) where F: FnMut(usize) -> Result<Option<T>, E>
    requires
        forall|idx: usize, answer: Result<Option<T>, E>|
            idx < expected && call_ensures(next, (idx,), answer) ==> answer == Ok::<Option<T>, E>(
                if idx < source.len() {
                    Some(source[idx as int])
                } else {
                    None
                },
            ),
        sequence_outcome(next, expected, result),
    ensures
        match read_sequence(source, expected) {
            Ok(items) => result == Ok::<Seq<T>, SequenceError<E>>(items),
            Err(mismatch) => result == Err::<Seq<T>, SequenceError<E>>(
                SequenceError::LengthMismatch(mismatch),
            ),
        },
{
    match result {
        Ok(items) => {
            if expected > 0 {
                let last = expected - 1;
                assert(call_ensures(next, (last as usize,), Ok::<Option<T>, E>(Some(items[last]))));
            }
            assert(source.len() >= expected);
            assert forall|idx: int| 0 <= idx < expected implies #[trigger] items[idx]
                == source[idx] by {
                assert(call_ensures(next, (idx as usize,), Ok::<Option<T>, E>(Some(items[idx]))));
            }
            assert(items =~= source.take(expected as int));
        },
        Err(error) => {
            let stop = choose|idx: usize|
                idx < expected && #[trigger] stops_at(next, expected, idx, error);
            let answer = choose|answer: Result<Option<T>, E>| #[trigger]
                call_ensures(next, (stop,), answer) && element_outcome(expected, stop, answer)
                    == Err::<T, SequenceError<E>>(error);
            let prefix = choose|prefix: Seq<T>| #[trigger]
                prefix.len() == stop && read_by(next, prefix);
            assert(stop >= source.len());
            if stop > source.len() {
                let at = source.len() as int;
                assert(call_ensures(next, (at as usize,), Ok::<Option<T>, E>(Some(prefix[at]))));
            }
        },
    }
}

} // verus!
