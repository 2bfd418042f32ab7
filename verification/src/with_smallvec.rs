//! The collection traits on `smallvec`'s vector, for the element type
//! and capacity of the instance that this module hands out.

use crate::capacity::Capacity;
use crate::capacity_upper_bound::{capacity_upper_bound_for_heap, heap_bound, CapacityUpperBound};
use crate::clear::Clear;
use crate::insert::{insert_outcome, Insert};
use crate::length::Length;
use crate::push::Push;
use crate::remove::{remove_outcome, Remove};
use crate::retain::{kept, verdicts, Retain};
use crate::storage::Storage;
use crate::swap::{slice_swap, swap_outcome, Swap};
use crate::truncate::{truncated, Truncate};
use crate::with_capacity::WithCapacity;
use vstd::layout::size_of;
use vstd::prelude::*;

verus! {

/// A `smallvec::SmallVec` of `i32` that keeps up to five elements inline.
/// Nothing is known of a value but what the functions below say.
#[verifier::external_body]
pub struct SmallIntVec {
    inner: smallvec::SmallVec<[i32; 5]>,
}

/// The elements that a `smallvec::SmallVec` holds, in index order.
pub uninterp spec fn small_vec_items(vec: SmallIntVec) -> Seq<i32>;

/// `SmallVec::new`: a vector without elements.
#[verifier::external_body]
fn small_vec_new() -> (vec: SmallIntVec)
    ensures
        small_vec_items(vec) == Seq::<i32>::empty(),
{
    SmallIntVec { inner: smallvec::SmallVec::new() }
}

/// `SmallVec::with_capacity`: a vector without elements, with room for at least
/// the number asked for. The source panics where that many elements take more
/// than `isize::MAX` bytes, which the precondition rules out.
#[verifier::external_body]
fn small_vec_with_capacity(capacity: usize) -> (vec: SmallIntVec)
    requires
        capacity * 4 <= isize::MAX,
    ensures
        small_vec_items(vec) == Seq::<i32>::empty(),
{
    SmallIntVec { inner: smallvec::SmallVec::with_capacity(capacity) }
}

/// `SmallVec::extend` with the elements of a slice: they are appended in their
/// order, on the heap where they do not fit inline.
#[verifier::external_body]
fn small_vec_extend(vec: &mut SmallIntVec, elements: &[i32])
    ensures
        small_vec_items(*final(vec)) == small_vec_items(*old(vec)) + elements@,
{
    vec.inner.extend(elements.iter().copied())
}

/// `SmallVec::capacity`: how many elements the vector can hold without allocating
/// again, which is never less than it holds.
#[verifier::external_body]
fn small_vec_capacity(vec: &SmallIntVec) -> (capacity: usize)
    ensures
        capacity >= small_vec_items(*vec).len(),
{
    vec.inner.capacity()
}

/// `SmallVec::len`: the number of elements held.
#[verifier::external_body]
fn small_vec_len(vec: &SmallIntVec) -> (len: usize)
    ensures
        len == small_vec_items(*vec).len(),
{
    vec.inner.len()
}

/// `SmallVec::clear`: no element is left.
#[verifier::external_body]
fn small_vec_clear(vec: &mut SmallIntVec)
    ensures
        small_vec_items(*final(vec)) == Seq::<i32>::empty(),
{
    vec.inner.clear()
}

/// `SmallVec::push`: the element is appended, on the heap where it does not fit
/// inline.
#[verifier::external_body]
fn small_vec_push(vec: &mut SmallIntVec, element: i32)
    ensures
        small_vec_items(*final(vec)) == small_vec_items(*old(vec)).push(element),
{
    vec.inner.push(element)
}

/// `SmallVec::insert`: the element is placed at the index and what stood there or
/// after moves up. The source panics on an index beyond the end, which the
/// precondition rules out.
#[verifier::external_body]
fn small_vec_insert(vec: &mut SmallIntVec, index: usize, element: i32)
    requires
        index <= small_vec_items(*old(vec)).len(),
    ensures
        small_vec_items(*final(vec)) == small_vec_items(*old(vec)).insert(
            index as int,
            element,
        ),
{
    vec.inner.insert(index, element)
}

/// `SmallVec::remove`: the element at the index leaves and comes back, and what
/// stood after it moves down. The source panics on an index out of range,
/// which the precondition rules out.
#[verifier::external_body]
fn small_vec_remove(vec: &mut SmallIntVec, index: usize) -> (element: i32)
    requires
        index < small_vec_items(*old(vec)).len(),
    ensures
        element == small_vec_items(*old(vec))[index as int],
        small_vec_items(*final(vec)) == small_vec_items(*old(vec)).remove(index as int),
{
    vec.inner.remove(index)
}

/// `SmallVec::retain`: the predicate is asked about each element in index order,
/// and exactly those on which it said `true` stay, in their order.
#[verifier::external_body]
fn small_vec_retain<F>(vec: &mut SmallIntVec, input: F) where
    F: FnMut(&i32) -> bool,

    requires
        forall|idx: int|
            0 <= idx < small_vec_items(*old(vec)).len() ==> call_requires(
                input,
                (&small_vec_items(*old(vec))[idx],),
            ),
    ensures
        exists|keep: Seq<bool>| #[trigger]
            verdicts(input, small_vec_items(*old(vec)), keep)
                && small_vec_items(*final(vec)) == kept(small_vec_items(*old(vec)), keep),
{
    let mut input = input;
    vec.inner.retain(|element| input(element))
}

/// `SmallVec::as_mut`: the elements as a mutable slice; what is written through the
/// slice is what the vector holds afterwards.
#[verifier::external_body]
fn small_vec_as_mut(vec: &mut SmallIntVec) -> (slice: &mut [i32])
    ensures
        slice@ == small_vec_items(*old(vec)),
        small_vec_items(*final(vec)) == final(slice)@,
{
    vec.inner.as_mut()
}

/// `SmallVec::truncate`: the first `len` elements stay; a vector that is not longer
/// stays as it is.
#[verifier::external_body]
fn small_vec_truncate(vec: &mut SmallIntVec, len: usize)
    ensures
        small_vec_items(*final(vec)) == truncated(small_vec_items(*old(vec)), len),
{
    vec.inner.truncate(len)
}

/// `SmallVec::as_slice`: the elements as a slice.
#[verifier::external_body]
fn small_vec_as_slice(vec: &SmallIntVec) -> (slice: &[i32])
    ensures
        slice@ == small_vec_items(*vec),
{
    vec.inner.as_slice()
}

impl View for SmallIntVec {
    type V = Seq<i32>;

    /// The elements, in index order.
    open spec fn view(&self) -> Seq<i32> {
        small_vec_items(*self)
    }
}

impl SmallIntVec {
    /// The elements as a slice.
    pub fn as_slice(&self) -> (slice: &[i32])
        ensures
            slice@ == self@,
    {
        small_vec_as_slice(self)
    }
}

/// `SmallVec` with three elements
pub fn small_vec() -> (vec: SmallIntVec)
    ensures
        small_vec_items(vec) == seq![1i32, 2i32, 3i32],
{
    let mut vec = small_vec_new();
    let elements: [i32; 3] = [1, 2, 3];
    small_vec_extend(&mut vec, elements.as_slice());
    assert(small_vec_items(vec) =~= seq![1i32, 2i32, 3i32]);
    vec
}

impl Capacity for SmallIntVec {
    /// The vector has room for at least the elements it holds; how much more is
    /// up to where it keeps them.
    open spec fn capacity_ensures(&self, capacity: usize) -> bool {
        capacity >= small_vec_items(*self).len()
    }

    fn capacity(&self) -> usize {
        small_vec_capacity(self)
    }
}

impl CapacityUpperBound for SmallIntVec {
    /// The vector may move to the heap, whose bound is the one that counts.
    open spec fn capacity_upper_bound_ensures(&self, bound: usize) -> bool {
        bound == heap_bound(size_of::<i32>())
    }

    fn capacity_upper_bound(&self) -> usize {
        broadcast use vstd::layout::layout_of_primitives;

        capacity_upper_bound_for_heap::<i32>()
    }
}

impl Clear for SmallIntVec {
    /// The vector is left empty.
    open spec fn clear_ensures(before: Self, after: Self) -> bool {
        small_vec_items(after) == Seq::<i32>::empty()
    }

    fn clear(&mut self) {
        small_vec_clear(self)
    }
}

impl Insert for SmallIntVec {
    type Error = i32;

    type Input = (usize, i32);

    type Ok = ();

    open spec fn insert_ensures(
        before: Self,
        input: (usize, i32),
        after: Self,
        result: Result<(), i32>,
    ) -> bool {
        insert_outcome(small_vec_items(before), input, small_vec_items(after), result)
    }

    fn insert(&mut self, input: (usize, i32)) -> Result<(), i32> {
        let (idx, elem) = input;
        if idx > small_vec_len(self) {
            return Err(elem);
        }
        Ok(small_vec_insert(self, idx, elem))
    }
}

impl Length for SmallIntVec {
    open spec fn length_ensures(&self, length: usize) -> bool {
        length == small_vec_items(*self).len()
    }

    fn length(&self) -> usize {
        small_vec_len(self)
    }
}

impl Push for SmallIntVec {
    type Error = i32;

    type Input = i32;

    type Ok = ();

    /// The element is appended; this never fails.
    open spec fn push_ensures(
        before: Self,
        input: i32,
        after: Self,
        result: Result<(), i32>,
    ) -> bool {
        result is Ok && small_vec_items(after) == small_vec_items(before).push(input)
    }

    fn push(&mut self, input: i32) -> Result<(), i32> {
        small_vec_push(self, input);
        Ok(())
    }
}

impl Remove for SmallIntVec {
    type Error = ();

    type Input = usize;

    type Ok = i32;

    open spec fn remove_ensures(
        before: Self,
        idx: usize,
        after: Self,
        result: Result<i32, ()>,
    ) -> bool {
        remove_outcome(small_vec_items(before), idx, small_vec_items(after), result)
    }

    fn remove(&mut self, idx: usize) -> Result<i32, ()> {
        if idx >= small_vec_len(self) {
            return Err(());
        }
        Ok(small_vec_remove(self, idx))
    }
}

impl Retain for SmallIntVec {
    type Item = i32;

    type Output = ();

    /// The elements, in index order.
    open spec fn retain_items(&self) -> Seq<i32> {
        small_vec_items(*self)
    }

    /// Exactly the elements on which the predicate says `true` stay, in their order.
    open spec fn retain_ensures(before: Self, keep: Seq<bool>, after: Self, output: ()) -> bool {
        small_vec_items(after) == kept(small_vec_items(before), keep)
    }

    fn retain<F: FnMut(&i32) -> bool>(&mut self, input: F) {
        let ghost before = *self;
        assert forall|idx: int| 0 <= idx < small_vec_items(before).len() implies call_requires(
            input,
            (&small_vec_items(before)[idx],),
        ) by {
            assert(before.retain_items()[idx] == small_vec_items(before)[idx]);
        }
        small_vec_retain(self, input);
        proof {
            let keep = choose|keep: Seq<bool>| #[trigger]
                verdicts(input, small_vec_items(before), keep)
                    && small_vec_items(*self) == kept(small_vec_items(before), keep);
            assert(verdicts(input, before.retain_items(), keep));
            assert(Self::retain_ensures(before, keep, *self, ()));
        }
    }
}

impl Storage for SmallIntVec {
    type Item = i32;
}

impl Swap for SmallIntVec {
    type Input = [usize; 2];

    type Output = Result<(), ()>;

    open spec fn swap_ensures(
        before: Self,
        input: [usize; 2],
        after: Self,
        output: Result<(), ()>,
    ) -> bool {
        swap_outcome(small_vec_items(before), input, small_vec_items(after), output)
    }

    fn swap(&mut self, input: [usize; 2]) -> Result<(), ()> {
        let a = input[0];
        let b = input[1];
        let len = small_vec_len(self);
        if a >= len || b >= len {
            return Err(());
        }
        let slice: &mut [i32] = small_vec_as_mut(self);
        slice_swap(slice, a, b);
        Ok(())
    }
}

impl Truncate for SmallIntVec {
    type Input = usize;

    type Output = ();

    open spec fn truncate_ensures(before: Self, input: usize, after: Self, output: ()) -> bool {
        small_vec_items(after) == truncated(small_vec_items(before), input)
    }

    fn truncate(&mut self, input: usize) {
        small_vec_truncate(self, input);
    }
}

impl WithCapacity for SmallIntVec {
    type Input = usize;

    open spec fn with_capacity_requires(input: usize) -> bool {
        input * 4 <= isize::MAX
    }

    /// The vector starts empty.
    open spec fn with_capacity_ensures(input: usize, created: Self) -> bool {
        small_vec_items(created) == Seq::<i32>::empty()
    }

    fn with_capacity(input: usize) -> Self {
        small_vec_with_capacity(input)
    }
}

} // verus!
