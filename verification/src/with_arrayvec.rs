//! The collection traits on `arrayvec`'s bounded vector, for the element type
//! and capacity of the instance that this module hands out.

use crate::capacity::Capacity;
use crate::capacity_upper_bound::CapacityUpperBound;
use crate::clear::Clear;
use crate::insert::{insert_outcome, Insert};
use crate::length::Length;
use crate::push::{bounded_push_outcome, Push};
use crate::remove::{remove_outcome, Remove};
use crate::retain::{kept, verdicts, Retain};
use crate::storage::Storage;
use crate::swap::{slice_swap, swap_outcome, Swap};
use crate::truncate::{truncated, Truncate};
use crate::with_capacity::WithCapacity;
use vstd::prelude::*;

verus! {

/// `arrayvec::ArrayVec`, a vector of a fixed capacity, taken as it is: nothing
/// is known of a value but what the functions below say.
#[verifier::external_type_specification]
#[verifier::external_body]
#[verifier::reject_recursive_types(T)]
pub struct ExArrayVec<T, const CAP: usize>(arrayvec::ArrayVec<T, CAP>);

/// The elements that a `arrayvec::ArrayVec` holds, in index order.
pub uninterp spec fn array_vec_items(vec: arrayvec::ArrayVec<i32, 5>) -> Seq<i32>;

/// `ArrayVec::new`: a vector without elements.
#[verifier::external_body]
fn array_vec_new() -> (vec: arrayvec::ArrayVec<i32, 5>)
    ensures
        array_vec_items(vec) == Seq::<i32>::empty(),
{
    arrayvec::ArrayVec::new()
}

/// `ArrayVec::extend` with the elements of a slice: they are appended in their
/// order. The source panics where they do not all fit, which the precondition
/// rules out.
#[verifier::external_body]
fn array_vec_extend(vec: &mut arrayvec::ArrayVec<i32, 5>, elements: &[i32])
    requires
        array_vec_items(*old(vec)).len() + elements@.len() <= 5,
    ensures
        array_vec_items(*final(vec)) == array_vec_items(*old(vec)) + elements@,
{
    vec.extend(elements.iter().copied())
}

/// `ArrayVec::capacity`: the capacity that the type fixes.
#[verifier::external_body]
fn array_vec_capacity(vec: &arrayvec::ArrayVec<i32, 5>) -> (capacity: usize)
    ensures
        capacity == 5,
{
    vec.capacity()
}

/// `ArrayVec::len`: the number of elements held, which never exceeds the capacity.
#[verifier::external_body]
fn array_vec_len(vec: &arrayvec::ArrayVec<i32, 5>) -> (len: usize)
    ensures
        len == array_vec_items(*vec).len(),
        len <= 5,
{
    vec.len()
}

/// `ArrayVec::clear`: no element is left.
#[verifier::external_body]
fn array_vec_clear(vec: &mut arrayvec::ArrayVec<i32, 5>)
    ensures
        array_vec_items(*final(vec)) == Seq::<i32>::empty(),
{
    vec.clear()
}

/// `ArrayVec::try_push`: the element is appended where there is room; a full vector
/// stays as it is and the element comes back in the error.
#[verifier::external_body]
fn array_vec_try_push(vec: &mut arrayvec::ArrayVec<i32, 5>, element: i32) -> (result: Result<
    (),
    i32,
>)
    ensures
        bounded_push_outcome(
            array_vec_items(*old(vec)),
            5,
            element,
            array_vec_items(*final(vec)),
            result,
        ),
{
    match vec.try_push(element) {
        Ok(()) => Ok(()),
        Err(error) => Err(error.element()),
    }
}

/// `ArrayVec::insert`: the element is placed at the index and what stood there or
/// after moves up. The source panics on an index beyond the end and on a full
/// vector, which the precondition rules out.
#[verifier::external_body]
fn array_vec_insert(vec: &mut arrayvec::ArrayVec<i32, 5>, index: usize, element: i32)
    requires
        index <= array_vec_items(*old(vec)).len(),
        array_vec_items(*old(vec)).len() < 5,
    ensures
        array_vec_items(*final(vec)) == array_vec_items(*old(vec)).insert(
            index as int,
            element,
        ),
{
    vec.insert(index, element)
}

/// `ArrayVec::remove`: the element at the index leaves and comes back, and what
/// stood after it moves down. The source panics on an index out of range,
/// which the precondition rules out.
#[verifier::external_body]
fn array_vec_remove(vec: &mut arrayvec::ArrayVec<i32, 5>, index: usize) -> (element: i32)
    requires
        index < array_vec_items(*old(vec)).len(),
    ensures
        element == array_vec_items(*old(vec))[index as int],
        array_vec_items(*final(vec)) == array_vec_items(*old(vec)).remove(index as int),
{
    vec.remove(index)
}

/// `ArrayVec::retain`: the predicate is asked about each element in index order,
/// and exactly those on which it said `true` stay, in their order.
#[verifier::external_body]
fn array_vec_retain<F>(vec: &mut arrayvec::ArrayVec<i32, 5>, input: F) where
    F: FnMut(&i32) -> bool,

    requires
        forall|idx: int|
            0 <= idx < array_vec_items(*old(vec)).len() ==> call_requires(
                input,
                (&array_vec_items(*old(vec))[idx],),
            ),
    ensures
        exists|keep: Seq<bool>| #[trigger]
            verdicts(input, array_vec_items(*old(vec)), keep)
                && array_vec_items(*final(vec)) == kept(array_vec_items(*old(vec)), keep),
{
    let mut input = input;
    vec.retain(|element| input(element))
}

/// `ArrayVec::as_mut`: the elements as a mutable slice; what is written through the
/// slice is what the vector holds afterwards.
#[verifier::external_body]
fn array_vec_as_mut(vec: &mut arrayvec::ArrayVec<i32, 5>) -> (slice: &mut [i32])
    ensures
        slice@ == array_vec_items(*old(vec)),
        array_vec_items(*final(vec)) == final(slice)@,
{
    vec.as_mut()
}

/// `ArrayVec::truncate`: the first `len` elements stay; a vector that is not longer
/// stays as it is.
#[verifier::external_body]
fn array_vec_truncate(vec: &mut arrayvec::ArrayVec<i32, 5>, len: usize)
    ensures
        array_vec_items(*final(vec)) == truncated(array_vec_items(*old(vec)), len),
{
    vec.truncate(len)
}

/// `ArrayVec` with three elements
pub fn array_vec() -> (vec: arrayvec::ArrayVec<i32, 5>)
    ensures
        array_vec_items(vec) == seq![1i32, 2i32, 3i32],
{
    let mut vec = array_vec_new();
    let elements: [i32; 3] = [1, 2, 3];
    array_vec_extend(&mut vec, elements.as_slice());
    assert(array_vec_items(vec) =~= seq![1i32, 2i32, 3i32]);
    vec
}

impl Capacity for arrayvec::ArrayVec<i32, 5> {
    /// The vector has room for five elements.
    open spec fn capacity_ensures(&self, capacity: usize) -> bool {
        capacity == 5
    }

    fn capacity(&self) -> usize {
        array_vec_capacity(self)
    }
}

impl CapacityUpperBound for arrayvec::ArrayVec<i32, 5> {
    /// The vector never holds more than five elements.
    open spec fn capacity_upper_bound_ensures(&self, bound: usize) -> bool {
        bound == 5
    }

    fn capacity_upper_bound(&self) -> usize {
        5
    }
}

impl Clear for arrayvec::ArrayVec<i32, 5> {
    /// The vector is left empty.
    open spec fn clear_ensures(before: Self, after: Self) -> bool {
        array_vec_items(after) == Seq::<i32>::empty()
    }

    fn clear(&mut self) {
        array_vec_clear(self)
    }
}

impl Insert for arrayvec::ArrayVec<i32, 5> {
    type Error = i32;

    type Input = (usize, i32);

    type Ok = ();

    /// A full vector takes no element at an index that it has.
    open spec fn insert_requires(&self, input: (usize, i32)) -> bool {
        input.0 <= array_vec_items(*self).len() ==> array_vec_items(*self).len() < 5
    }

    open spec fn insert_ensures(
        before: Self,
        input: (usize, i32),
        after: Self,
        result: Result<(), i32>,
    ) -> bool {
        insert_outcome(array_vec_items(before), input, array_vec_items(after), result)
    }

    fn insert(&mut self, input: (usize, i32)) -> Result<(), i32> {
        let (idx, elem) = input;
        if idx > array_vec_len(self) {
            return Err(elem);
        }
        Ok(array_vec_insert(self, idx, elem))
    }
}

impl Length for arrayvec::ArrayVec<i32, 5> {
    open spec fn length_ensures(&self, length: usize) -> bool {
        length == array_vec_items(*self).len()
    }

    fn length(&self) -> usize {
        array_vec_len(self)
    }
}

impl Push for arrayvec::ArrayVec<i32, 5> {
    type Error = i32;

    type Input = i32;

    type Ok = ();

    open spec fn push_ensures(
        before: Self,
        input: i32,
        after: Self,
        result: Result<(), i32>,
    ) -> bool {
        bounded_push_outcome(
            array_vec_items(before),
            5,
            input,
            array_vec_items(after),
            result,
        )
    }

    fn push(&mut self, input: i32) -> Result<(), i32> {
        array_vec_try_push(self, input)
    }
}

impl Remove for arrayvec::ArrayVec<i32, 5> {
    type Error = ();

    type Input = usize;

    type Ok = i32;

    open spec fn remove_ensures(
        before: Self,
        idx: usize,
        after: Self,
        result: Result<i32, ()>,
    ) -> bool {
        remove_outcome(array_vec_items(before), idx, array_vec_items(after), result)
    }

    fn remove(&mut self, idx: usize) -> Result<i32, ()> {
        if idx >= array_vec_len(self) {
            return Err(());
        }
        Ok(array_vec_remove(self, idx))
    }
}

impl Retain for arrayvec::ArrayVec<i32, 5> {
    type Item = i32;

    type Output = ();

    /// The elements, in index order.
    open spec fn retain_items(&self) -> Seq<i32> {
        array_vec_items(*self)
    }

    /// Exactly the elements on which the predicate says `true` stay, in their order.
    open spec fn retain_ensures(before: Self, keep: Seq<bool>, after: Self, output: ()) -> bool {
        array_vec_items(after) == kept(array_vec_items(before), keep)
    }

    fn retain<F: FnMut(&i32) -> bool>(&mut self, input: F) {
        let ghost before = *self;
        assert forall|idx: int| 0 <= idx < array_vec_items(before).len() implies call_requires(
            input,
            (&array_vec_items(before)[idx],),
        ) by {
            assert(before.retain_items()[idx] == array_vec_items(before)[idx]);
        }
        array_vec_retain(self, input);
        proof {
            let keep = choose|keep: Seq<bool>| #[trigger]
                verdicts(input, array_vec_items(before), keep)
                    && array_vec_items(*self) == kept(array_vec_items(before), keep);
            assert(verdicts(input, before.retain_items(), keep));
            assert(Self::retain_ensures(before, keep, *self, ()));
        }
    }
}

impl Storage for arrayvec::ArrayVec<i32, 5> {
    type Item = i32;
}

impl Swap for arrayvec::ArrayVec<i32, 5> {
    type Input = [usize; 2];

    type Output = Result<(), ()>;

    open spec fn swap_ensures(
        before: Self,
        input: [usize; 2],
        after: Self,
        output: Result<(), ()>,
    ) -> bool {
        swap_outcome(array_vec_items(before), input, array_vec_items(after), output)
    }

    fn swap(&mut self, input: [usize; 2]) -> Result<(), ()> {
        let a = input[0];
        let b = input[1];
        let len = array_vec_len(self);
        if a >= len || b >= len {
            return Err(());
        }
        let slice: &mut [i32] = array_vec_as_mut(self);
        slice_swap(slice, a, b);
        Ok(())
    }
}

impl Truncate for arrayvec::ArrayVec<i32, 5> {
    type Input = usize;

    type Output = ();

    open spec fn truncate_ensures(before: Self, input: usize, after: Self, output: ()) -> bool {
        array_vec_items(after) == truncated(array_vec_items(before), input)
    }

    fn truncate(&mut self, input: usize) {
        array_vec_truncate(self, input);
    }
}

impl WithCapacity for arrayvec::ArrayVec<i32, 5> {
    type Input = usize;

    /// Whatever the input, the vector starts empty.
    open spec fn with_capacity_ensures(input: usize, created: Self) -> bool {
        array_vec_items(created) == Seq::<i32>::empty()
    }

    fn with_capacity(_input: usize) -> Self {
        array_vec_new()
    }
}

} // verus!
