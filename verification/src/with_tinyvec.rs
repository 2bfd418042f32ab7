//! The collection traits on `tinyvec`'s two vectors, for the element type
//! and capacity of the instances that this module hands out.

use crate::capacity::Capacity;
use crate::capacity_upper_bound::{capacity_upper_bound_for_heap, heap_bound, CapacityUpperBound};
use crate::clear::Clear;
use crate::insert::{insert_outcome, Insert};
use crate::length::Length;
use crate::push::{bounded_push_outcome, Push};
use crate::remove::{remove_outcome, Remove};
use crate::retain::{kept, verdicts, Retain};
use crate::storage::Storage;
use crate::swap::{slice_swap, swap_outcome, Swap};
use crate::truncate::{truncated, Truncate};
use crate::with_capacity::WithCapacity;
use vstd::layout::size_of;
use vstd::prelude::*;

verus! {

/// `tinyvec::ArrayVec`, a vector of a fixed capacity, taken as it is: nothing
/// is known of a value but what the functions below say.
#[verifier::external_type_specification]
#[verifier::external_body]
#[verifier::reject_recursive_types(A)]
pub struct ExArrayVec<A>(tinyvec::ArrayVec<A>);

/// The elements that a `tinyvec::ArrayVec` holds, in index order.
pub uninterp spec fn tiny_array_vec_items(vec: tinyvec::ArrayVec<[i32; 5]>) -> Seq<i32>;

/// `ArrayVec::new`: a vector without elements.
#[verifier::external_body]
fn tiny_array_vec_new() -> (vec: tinyvec::ArrayVec<[i32; 5]>)
    ensures
        tiny_array_vec_items(vec) == Seq::<i32>::empty(),
{
    tinyvec::ArrayVec::new()
}

/// `ArrayVec::extend` with the elements of a slice: they are appended in their
/// order. The source panics where they do not all fit, which the precondition
/// rules out.
#[verifier::external_body]
fn tiny_array_vec_extend(vec: &mut tinyvec::ArrayVec<[i32; 5]>, elements: &[i32])
    requires
        tiny_array_vec_items(*old(vec)).len() + elements@.len() <= 5,
    ensures
        tiny_array_vec_items(*final(vec)) == tiny_array_vec_items(*old(vec)) + elements@,
{
    vec.extend(elements.iter().copied())
}

/// `ArrayVec::capacity`: the capacity that the type fixes.
#[verifier::external_body]
fn tiny_array_vec_capacity(vec: &tinyvec::ArrayVec<[i32; 5]>) -> (capacity: usize)
    ensures
        capacity == 5,
{
    vec.capacity()
}

/// `ArrayVec::len`: the number of elements held, which never exceeds the capacity.
#[verifier::external_body]
fn tiny_array_vec_len(vec: &tinyvec::ArrayVec<[i32; 5]>) -> (len: usize)
    ensures
        len == tiny_array_vec_items(*vec).len(),
        len <= 5,
{
    vec.len()
}

/// `ArrayVec::clear`: no element is left.
#[verifier::external_body]
fn tiny_array_vec_clear(vec: &mut tinyvec::ArrayVec<[i32; 5]>)
    ensures
        tiny_array_vec_items(*final(vec)) == Seq::<i32>::empty(),
{
    vec.clear()
}

/// `ArrayVec::try_push`: the element is appended where there is room; a full vector
/// stays as it is and the element comes back.
#[verifier::external_body]
fn tiny_array_vec_try_push(vec: &mut tinyvec::ArrayVec<[i32; 5]>, element: i32) -> (rejected: Option<
    i32,
>)
    ensures
        tiny_array_vec_items(*old(vec)).len() < 5 ==> rejected is None,
        tiny_array_vec_items(*old(vec)).len() < 5 ==> tiny_array_vec_items(*final(vec))
            == tiny_array_vec_items(*old(vec)).push(element),
        tiny_array_vec_items(*old(vec)).len() >= 5 ==> rejected == Some(element),
        tiny_array_vec_items(*old(vec)).len() >= 5 ==> tiny_array_vec_items(*final(vec))
            == tiny_array_vec_items(*old(vec)),
{
    vec.try_push(element)
}

/// `ArrayVec::insert`: the element is placed at the index and what stood there or
/// after moves up. The source panics on an index beyond the end and on a full
/// vector, which the precondition rules out.
#[verifier::external_body]
fn tiny_array_vec_insert(vec: &mut tinyvec::ArrayVec<[i32; 5]>, index: usize, element: i32)
    requires
        index <= tiny_array_vec_items(*old(vec)).len(),
        tiny_array_vec_items(*old(vec)).len() < 5,
    ensures
        tiny_array_vec_items(*final(vec)) == tiny_array_vec_items(*old(vec)).insert(
            index as int,
            element,
        ),
{
    vec.insert(index, element)
}

/// `ArrayVec::remove`: the element at the index leaves and comes back, and what
/// stood after it moves down. The source panics on an index out of range,
/// which the precondition rules out.
#[verifier::external_body]
fn tiny_array_vec_remove(vec: &mut tinyvec::ArrayVec<[i32; 5]>, index: usize) -> (element: i32)
    requires
        index < tiny_array_vec_items(*old(vec)).len(),
    ensures
        element == tiny_array_vec_items(*old(vec))[index as int],
        tiny_array_vec_items(*final(vec)) == tiny_array_vec_items(*old(vec)).remove(index as int),
{
    vec.remove(index)
}

/// `ArrayVec::retain`: the predicate is asked about each element in index order,
/// and exactly those on which it said `true` stay, in their order.
#[verifier::external_body]
fn tiny_array_vec_retain<F>(vec: &mut tinyvec::ArrayVec<[i32; 5]>, input: F) where
    F: FnMut(&i32) -> bool,

    requires
        forall|idx: int|
            0 <= idx < tiny_array_vec_items(*old(vec)).len() ==> call_requires(
                input,
                (&tiny_array_vec_items(*old(vec))[idx],),
            ),
    ensures
        exists|keep: Seq<bool>| #[trigger]
            verdicts(input, tiny_array_vec_items(*old(vec)), keep)
                && tiny_array_vec_items(*final(vec)) == kept(tiny_array_vec_items(*old(vec)), keep),
{
    vec.retain(input)
}

/// `ArrayVec::as_mut`: the elements as a mutable slice; what is written through the
/// slice is what the vector holds afterwards.
#[verifier::external_body]
fn tiny_array_vec_as_mut(vec: &mut tinyvec::ArrayVec<[i32; 5]>) -> (slice: &mut [i32])
    ensures
        slice@ == tiny_array_vec_items(*old(vec)),
        tiny_array_vec_items(*final(vec)) == final(slice)@,
{
    vec.as_mut()
}

/// `ArrayVec::truncate`: the first `len` elements stay; a vector that is not longer
/// stays as it is.
#[verifier::external_body]
fn tiny_array_vec_truncate(vec: &mut tinyvec::ArrayVec<[i32; 5]>, len: usize)
    ensures
        tiny_array_vec_items(*final(vec)) == truncated(tiny_array_vec_items(*old(vec)), len),
{
    vec.truncate(len)
}

/// `tinyvec::ArrayVec` with three elements
pub fn tiny_vec_array_vec() -> (vec: tinyvec::ArrayVec<[i32; 5]>)
    ensures
        tiny_array_vec_items(vec) == seq![1i32, 2i32, 3i32],
{
    let mut vec = tiny_array_vec_new();
    let elements: [i32; 3] = [1, 2, 3];
    tiny_array_vec_extend(&mut vec, elements.as_slice());
    assert(tiny_array_vec_items(vec) =~= seq![1i32, 2i32, 3i32]);
    vec
}

impl Capacity for tinyvec::ArrayVec<[i32; 5]> {
    /// The vector has room for five elements.
    open spec fn capacity_ensures(&self, capacity: usize) -> bool {
        capacity == 5
    }

    fn capacity(&self) -> usize {
        tiny_array_vec_capacity(self)
    }
}

impl CapacityUpperBound for tinyvec::ArrayVec<[i32; 5]> {
    /// The vector never holds more than five elements.
    open spec fn capacity_upper_bound_ensures(&self, bound: usize) -> bool {
        bound == 5
    }

    fn capacity_upper_bound(&self) -> usize {
        5
    }
}

impl Clear for tinyvec::ArrayVec<[i32; 5]> {
    /// The vector is left empty.
    open spec fn clear_ensures(before: Self, after: Self) -> bool {
        tiny_array_vec_items(after) == Seq::<i32>::empty()
    }

    fn clear(&mut self) {
        tiny_array_vec_clear(self)
    }
}

impl Insert for tinyvec::ArrayVec<[i32; 5]> {
    type Error = i32;

    type Input = (usize, i32);

    type Ok = ();

    /// A full vector takes no element at an index that it has.
    open spec fn insert_requires(&self, input: (usize, i32)) -> bool {
        input.0 <= tiny_array_vec_items(*self).len() ==> tiny_array_vec_items(*self).len() < 5
    }

    open spec fn insert_ensures(
        before: Self,
        input: (usize, i32),
        after: Self,
        result: Result<(), i32>,
    ) -> bool {
        insert_outcome(tiny_array_vec_items(before), input, tiny_array_vec_items(after), result)
    }

    fn insert(&mut self, input: (usize, i32)) -> Result<(), i32> {
        let (idx, elem) = input;
        if idx > tiny_array_vec_len(self) {
            return Err(elem);
        }
        Ok(tiny_array_vec_insert(self, idx, elem))
    }
}

impl Length for tinyvec::ArrayVec<[i32; 5]> {
    open spec fn length_ensures(&self, length: usize) -> bool {
        length == tiny_array_vec_items(*self).len()
    }

    fn length(&self) -> usize {
        tiny_array_vec_len(self)
    }
}

impl Push for tinyvec::ArrayVec<[i32; 5]> {
    type Error = i32;

    type Input = i32;

    type Ok = ();

    open spec fn push_ensures(
        before: Self,
        input: i32,
        after: Self,
        result: Result<(), i32>,
    ) -> bool {
        bounded_push_outcome(
            tiny_array_vec_items(before),
            5,
            input,
            tiny_array_vec_items(after),
            result,
        )
    }

    fn push(&mut self, input: i32) -> Result<(), i32> {
        match tiny_array_vec_try_push(self, input) {
            None => Ok(()),
            Some(rslt) => Err(rslt),
        }
    }
}

impl Remove for tinyvec::ArrayVec<[i32; 5]> {
    type Error = ();

    type Input = usize;

    type Ok = i32;

    open spec fn remove_ensures(
        before: Self,
        idx: usize,
        after: Self,
        result: Result<i32, ()>,
    ) -> bool {
        remove_outcome(tiny_array_vec_items(before), idx, tiny_array_vec_items(after), result)
    }

    fn remove(&mut self, idx: usize) -> Result<i32, ()> {
        if idx >= tiny_array_vec_len(self) {
            return Err(());
        }
        Ok(tiny_array_vec_remove(self, idx))
    }
}

impl Retain for tinyvec::ArrayVec<[i32; 5]> {
    type Item = i32;

    type Output = ();

    /// The elements, in index order.
    open spec fn retain_items(&self) -> Seq<i32> {
        tiny_array_vec_items(*self)
    }

    /// Exactly the elements on which the predicate says `true` stay, in their order.
    open spec fn retain_ensures(before: Self, keep: Seq<bool>, after: Self, output: ()) -> bool {
        tiny_array_vec_items(after) == kept(tiny_array_vec_items(before), keep)
    }

    fn retain<F: FnMut(&i32) -> bool>(&mut self, input: F) {
        let ghost before = *self;
        assert forall|idx: int| 0 <= idx < tiny_array_vec_items(before).len() implies call_requires(
            input,
            (&tiny_array_vec_items(before)[idx],),
        ) by {
            assert(before.retain_items()[idx] == tiny_array_vec_items(before)[idx]);
        }
        tiny_array_vec_retain(self, input);
        proof {
            let keep = choose|keep: Seq<bool>| #[trigger]
                verdicts(input, tiny_array_vec_items(before), keep)
                    && tiny_array_vec_items(*self) == kept(tiny_array_vec_items(before), keep);
            assert(verdicts(input, before.retain_items(), keep));
            assert(Self::retain_ensures(before, keep, *self, ()));
        }
    }
}

impl Storage for tinyvec::ArrayVec<[i32; 5]> {
    type Item = i32;
}

impl Swap for tinyvec::ArrayVec<[i32; 5]> {
    type Input = [usize; 2];

    type Output = Result<(), ()>;

    open spec fn swap_ensures(
        before: Self,
        input: [usize; 2],
        after: Self,
        output: Result<(), ()>,
    ) -> bool {
        swap_outcome(tiny_array_vec_items(before), input, tiny_array_vec_items(after), output)
    }

    fn swap(&mut self, input: [usize; 2]) -> Result<(), ()> {
        let a = input[0];
        let b = input[1];
        let len = tiny_array_vec_len(self);
        if a >= len || b >= len {
            return Err(());
        }
        let slice: &mut [i32] = tiny_array_vec_as_mut(self);
        slice_swap(slice, a, b);
        Ok(())
    }
}

impl Truncate for tinyvec::ArrayVec<[i32; 5]> {
    type Input = usize;

    type Output = ();

    open spec fn truncate_ensures(before: Self, input: usize, after: Self, output: ()) -> bool {
        tiny_array_vec_items(after) == truncated(tiny_array_vec_items(before), input)
    }

    fn truncate(&mut self, input: usize) {
        tiny_array_vec_truncate(self, input);
    }
}

impl WithCapacity for tinyvec::ArrayVec<[i32; 5]> {
    type Input = usize;

    /// Whatever the input, the vector starts empty.
    open spec fn with_capacity_ensures(input: usize, created: Self) -> bool {
        tiny_array_vec_items(created) == Seq::<i32>::empty()
    }

    fn with_capacity(_input: usize) -> Self {
        tiny_array_vec_new()
    }
}

/// A `tinyvec::TinyVec` of `i32` that keeps up to five elements inline.
/// Nothing is known of a value but what the functions below say.
#[verifier::external_body]
pub struct TinyIntVec {
    inner: tinyvec::TinyVec<[i32; 5]>,
}

/// The elements that a `tinyvec::TinyVec` holds, in index order.
pub uninterp spec fn tiny_vec_items(vec: TinyIntVec) -> Seq<i32>;

/// `TinyVec::new`: a vector without elements.
#[verifier::external_body]
fn tiny_vec_new() -> (vec: TinyIntVec)
    ensures
        tiny_vec_items(vec) == Seq::<i32>::empty(),
{
    TinyIntVec { inner: tinyvec::TinyVec::new() }
}

/// `TinyVec::extend` with the elements of a slice: they are appended in their
/// order, on the heap where they do not fit inline.
#[verifier::external_body]
fn tiny_vec_extend(vec: &mut TinyIntVec, elements: &[i32])
    ensures
        tiny_vec_items(*final(vec)) == tiny_vec_items(*old(vec)) + elements@,
{
    vec.inner.extend(elements.iter().copied())
}

/// `TinyVec::capacity`: how many elements the vector can hold without allocating
/// again, which is never less than it holds.
#[verifier::external_body]
fn tiny_vec_capacity(vec: &TinyIntVec) -> (capacity: usize)
    ensures
        capacity >= tiny_vec_items(*vec).len(),
{
    vec.inner.capacity()
}

/// `TinyVec::len`: the number of elements held.
#[verifier::external_body]
fn tiny_vec_len(vec: &TinyIntVec) -> (len: usize)
    ensures
        len == tiny_vec_items(*vec).len(),
{
    vec.inner.len()
}

/// `TinyVec::clear`: no element is left.
#[verifier::external_body]
fn tiny_vec_clear(vec: &mut TinyIntVec)
    ensures
        tiny_vec_items(*final(vec)) == Seq::<i32>::empty(),
{
    vec.inner.clear()
}

/// `TinyVec::push`: the element is appended, on the heap where it does not fit
/// inline.
#[verifier::external_body]
fn tiny_vec_push(vec: &mut TinyIntVec, element: i32)
    ensures
        tiny_vec_items(*final(vec)) == tiny_vec_items(*old(vec)).push(element),
{
    vec.inner.push(element)
}

/// `TinyVec::insert`: the element is placed at the index and what stood there or
/// after moves up. The source panics on an index beyond the end, which the
/// precondition rules out.
#[verifier::external_body]
fn tiny_vec_insert(vec: &mut TinyIntVec, index: usize, element: i32)
    requires
        index <= tiny_vec_items(*old(vec)).len(),
    ensures
        tiny_vec_items(*final(vec)) == tiny_vec_items(*old(vec)).insert(
            index as int,
            element,
        ),
{
    vec.inner.insert(index, element)
}

/// `TinyVec::remove`: the element at the index leaves and comes back, and what
/// stood after it moves down. The source panics on an index out of range,
/// which the precondition rules out.
#[verifier::external_body]
fn tiny_vec_remove(vec: &mut TinyIntVec, index: usize) -> (element: i32)
    requires
        index < tiny_vec_items(*old(vec)).len(),
    ensures
        element == tiny_vec_items(*old(vec))[index as int],
        tiny_vec_items(*final(vec)) == tiny_vec_items(*old(vec)).remove(index as int),
{
    vec.inner.remove(index)
}

/// `TinyVec::retain`: the predicate is asked about each element in index order,
/// and exactly those on which it said `true` stay, in their order.
#[verifier::external_body]
fn tiny_vec_retain<F>(vec: &mut TinyIntVec, input: F) where
    F: FnMut(&i32) -> bool,

    requires
        forall|idx: int|
            0 <= idx < tiny_vec_items(*old(vec)).len() ==> call_requires(
                input,
                (&tiny_vec_items(*old(vec))[idx],),
            ),
    ensures
        exists|keep: Seq<bool>| #[trigger]
            verdicts(input, tiny_vec_items(*old(vec)), keep)
                && tiny_vec_items(*final(vec)) == kept(tiny_vec_items(*old(vec)), keep),
{
    vec.inner.retain(input)
}

/// `TinyVec::as_mut`: the elements as a mutable slice; what is written through the
/// slice is what the vector holds afterwards.
#[verifier::external_body]
fn tiny_vec_as_mut(vec: &mut TinyIntVec) -> (slice: &mut [i32])
    ensures
        slice@ == tiny_vec_items(*old(vec)),
        tiny_vec_items(*final(vec)) == final(slice)@,
{
    vec.inner.as_mut()
}

/// `TinyVec::truncate`: the first `len` elements stay; a vector that is not longer
/// stays as it is.
#[verifier::external_body]
fn tiny_vec_truncate(vec: &mut TinyIntVec, len: usize)
    ensures
        tiny_vec_items(*final(vec)) == truncated(tiny_vec_items(*old(vec)), len),
{
    vec.inner.truncate(len)
}

/// `TinyVec::as_slice`: the elements as a slice.
#[verifier::external_body]
fn tiny_vec_as_slice(vec: &TinyIntVec) -> (slice: &[i32])
    ensures
        slice@ == tiny_vec_items(*vec),
{
    vec.inner.as_slice()
}

impl View for TinyIntVec {
    type V = Seq<i32>;

    /// The elements, in index order.
    open spec fn view(&self) -> Seq<i32> {
        tiny_vec_items(*self)
    }
}

impl TinyIntVec {
    /// The elements as a slice.
    pub fn as_slice(&self) -> (slice: &[i32])
        ensures
            slice@ == self@,
    {
        tiny_vec_as_slice(self)
    }
}

/// `TinyVec` with three elements
pub fn tiny_vec() -> (vec: TinyIntVec)
    ensures
        tiny_vec_items(vec) == seq![1i32, 2i32, 3i32],
{
    let mut vec = tiny_vec_new();
    let elements: [i32; 3] = [1, 2, 3];
    tiny_vec_extend(&mut vec, elements.as_slice());
    assert(tiny_vec_items(vec) =~= seq![1i32, 2i32, 3i32]);
    vec
}

impl Capacity for TinyIntVec {
    /// The vector has room for at least the elements it holds; how much more is
    /// up to where it keeps them.
    open spec fn capacity_ensures(&self, capacity: usize) -> bool {
        capacity >= tiny_vec_items(*self).len()
    }

    fn capacity(&self) -> usize {
        tiny_vec_capacity(self)
    }
}

impl CapacityUpperBound for TinyIntVec {
    /// The vector may move to the heap, whose bound is the one that counts.
    open spec fn capacity_upper_bound_ensures(&self, bound: usize) -> bool {
        bound == heap_bound(size_of::<i32>())
    }

    fn capacity_upper_bound(&self) -> usize {
        broadcast use vstd::layout::layout_of_primitives;

        capacity_upper_bound_for_heap::<i32>()
    }
}

impl Clear for TinyIntVec {
    /// The vector is left empty.
    open spec fn clear_ensures(before: Self, after: Self) -> bool {
        tiny_vec_items(after) == Seq::<i32>::empty()
    }

    fn clear(&mut self) {
        tiny_vec_clear(self)
    }
}

impl Insert for TinyIntVec {
    type Error = i32;

    type Input = (usize, i32);

    type Ok = ();

    open spec fn insert_ensures(
        before: Self,
        input: (usize, i32),
        after: Self,
        result: Result<(), i32>,
    ) -> bool {
        insert_outcome(tiny_vec_items(before), input, tiny_vec_items(after), result)
    }

    fn insert(&mut self, input: (usize, i32)) -> Result<(), i32> {
        let (idx, elem) = input;
        if idx > tiny_vec_len(self) {
            return Err(elem);
        }
        Ok(tiny_vec_insert(self, idx, elem))
    }
}

impl Length for TinyIntVec {
    open spec fn length_ensures(&self, length: usize) -> bool {
        length == tiny_vec_items(*self).len()
    }

    fn length(&self) -> usize {
        tiny_vec_len(self)
    }
}

impl Push for TinyIntVec {
    type Error = i32;

    type Input = i32;

    type Ok = ();

    /// The element is appended; this never fails.
    open spec fn push_ensures(
        before: Self,
        input: i32,
        after: Self,
        result: Result<(), i32>,
    ) -> bool {
        result is Ok && tiny_vec_items(after) == tiny_vec_items(before).push(input)
    }

    fn push(&mut self, input: i32) -> Result<(), i32> {
        tiny_vec_push(self, input);
        Ok(())
    }
}

impl Remove for TinyIntVec {
    type Error = ();

    type Input = usize;

    type Ok = i32;

    open spec fn remove_ensures(
        before: Self,
        idx: usize,
        after: Self,
        result: Result<i32, ()>,
    ) -> bool {
        remove_outcome(tiny_vec_items(before), idx, tiny_vec_items(after), result)
    }

    fn remove(&mut self, idx: usize) -> Result<i32, ()> {
        if idx >= tiny_vec_len(self) {
            return Err(());
        }
        Ok(tiny_vec_remove(self, idx))
    }
}

impl Retain for TinyIntVec {
    type Item = i32;

    type Output = ();

    /// The elements, in index order.
    open spec fn retain_items(&self) -> Seq<i32> {
        tiny_vec_items(*self)
    }

    /// Exactly the elements on which the predicate says `true` stay, in their order.
    open spec fn retain_ensures(before: Self, keep: Seq<bool>, after: Self, output: ()) -> bool {
        tiny_vec_items(after) == kept(tiny_vec_items(before), keep)
    }

    fn retain<F: FnMut(&i32) -> bool>(&mut self, input: F) {
        let ghost before = *self;
        assert forall|idx: int| 0 <= idx < tiny_vec_items(before).len() implies call_requires(
            input,
            (&tiny_vec_items(before)[idx],),
        ) by {
            assert(before.retain_items()[idx] == tiny_vec_items(before)[idx]);
        }
        tiny_vec_retain(self, input);
        proof {
            let keep = choose|keep: Seq<bool>| #[trigger]
                verdicts(input, tiny_vec_items(before), keep)
                    && tiny_vec_items(*self) == kept(tiny_vec_items(before), keep);
            assert(verdicts(input, before.retain_items(), keep));
            assert(Self::retain_ensures(before, keep, *self, ()));
        }
    }
}

impl Storage for TinyIntVec {
    type Item = i32;
}

impl Swap for TinyIntVec {
    type Input = [usize; 2];

    type Output = Result<(), ()>;

    open spec fn swap_ensures(
        before: Self,
        input: [usize; 2],
        after: Self,
        output: Result<(), ()>,
    ) -> bool {
        swap_outcome(tiny_vec_items(before), input, tiny_vec_items(after), output)
    }

    fn swap(&mut self, input: [usize; 2]) -> Result<(), ()> {
        let a = input[0];
        let b = input[1];
        let len = tiny_vec_len(self);
        if a >= len || b >= len {
            return Err(());
        }
        let slice: &mut [i32] = tiny_vec_as_mut(self);
        slice_swap(slice, a, b);
        Ok(())
    }
}

impl Truncate for TinyIntVec {
    type Input = usize;

    type Output = ();

    open spec fn truncate_ensures(before: Self, input: usize, after: Self, output: ()) -> bool {
        tiny_vec_items(after) == truncated(tiny_vec_items(before), input)
    }

    fn truncate(&mut self, input: usize) {
        tiny_vec_truncate(self, input);
    }
}

impl WithCapacity for TinyIntVec {
    type Input = usize;

    /// Whatever the input, the vector starts empty.
    open spec fn with_capacity_ensures(input: usize, created: Self) -> bool {
        tiny_vec_items(created) == Seq::<i32>::empty()
    }

    fn with_capacity(_input: usize) -> Self {
        tiny_vec_new()
    }
}

} // verus!
