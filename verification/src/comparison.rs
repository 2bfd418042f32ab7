use crate::array::Array;
use crate::array_wrapper::ArrayWrapper;
use core::cmp::Ordering;
use vstd::prelude::*;
use vstd::std_specs::cmp::{
    OrdSpec, PartialEqSpec, PartialEqSpecImpl, PartialOrdSpec, PartialOrdSpecImpl,
};

verus! {

/// The position `idx` as a mathematical integer.
pub open spec fn position(idx: usize) -> int {
    idx as int
}

/// Whether the partial order of `T` is the one that its specification gives.
pub open spec fn partial_order_specified<T: PartialOrd>() -> bool {
    T::obeys_partial_cmp_spec()
}

/// Whether the total order of `T` is the one that its specification gives.
pub open spec fn order_specified<T: Ord>() -> bool {
    T::obeys_cmp_spec()
}

/// Two sequences of one length are equal element by element, each pair by the
/// items' own equality.
pub open spec fn all_equal<T: PartialEq>(left: Seq<T>, right: Seq<T>) -> bool {
    &&& left.len() == right.len()
    &&& forall|idx: int| 0 <= idx < left.len() ==> (#[trigger] left[idx]).eq_spec(&right[idx])
}

/// The lexicographic order of two sequences of one length from `start` on: the
/// verdict of the first pair of items that is not equal, by the items' own
/// partial order, or equality where there is no such pair.
pub open spec fn lexicographic_partial<T: PartialOrd>(
    left: Seq<T>,
    right: Seq<T>,
    start: int,
) -> Option<Ordering>
    decreases left.len() - start,
{
    if start < 0 || start >= left.len() || start >= right.len() {
        Some(Ordering::Equal)
    } else {
        match left[start].partial_cmp_spec(&right[start]) {
            Some(Ordering::Equal) => lexicographic_partial(left, right, start + 1),
            verdict => verdict,
        }
    }
}

/// The lexicographic order of two sequences of one length from `start` on, by
/// the items' own total order.
pub open spec fn lexicographic<T: Ord>(left: Seq<T>, right: Seq<T>, start: int) -> Ordering
    decreases left.len() - start,
{
    if start < 0 || start >= left.len() || start >= right.len() {
        Ordering::Equal
    } else {
        match left[start].cmp_spec(&right[start]) {
            Ordering::Equal => lexicographic(left, right, start + 1),
            verdict => verdict,
        }
    }
}

impl<A> PartialEq for ArrayWrapper<A> where A: Array, A::Item: PartialEq {
    fn eq(&self, other: &Self) -> (equal: bool) {
        proof {
            self.lemma_len();
            other.lemma_len();
        }
        let left = self.as_slice();
        let right = other.as_slice();
        let mut idx: usize = 0;
        while idx < left.len()
            invariant
                left@ == self@,
                right@ == other@,
                left@.len() == right@.len(),
                idx <= left@.len(),
                <A::Item as PartialEqSpec>::obeys_eq_spec() ==> forall|at: int|
                    0 <= at < position(idx) ==> (#[trigger] left@[at]).eq_spec(&right@[at]),
            decreases left@.len() - idx,
        {
            if !left[idx].eq(&right[idx]) {
                proof {
                    if <A::Item as PartialEqSpec>::obeys_eq_spec() {
                        assert(!left@[position(idx)].eq_spec(&right@[position(idx)]));
                    }
                }
                return false;
            }
            idx = idx + 1;
        }
        true
    }
}

impl<A> PartialEqSpecImpl for ArrayWrapper<A> where A: Array, A::Item: PartialEq {
    /// Wrappers compare as specified wherever their items do.
    open spec fn obeys_eq_spec() -> bool {
        <A::Item as PartialEqSpec>::obeys_eq_spec()
    }

    /// Two wrappers are equal where all their positions compare equal.
    open spec fn eq_spec(&self, other: &Self) -> bool {
        all_equal(self@, other@)
    }
}

impl<A> Eq for ArrayWrapper<A> where A: Array, A::Item: Eq {

}

impl<A> PartialOrd for ArrayWrapper<A> where A: Array, A::Item: PartialOrd {
    fn partial_cmp(&self, other: &Self) -> (verdict: Option<Ordering>) {
        proof {
            self.lemma_len();
            other.lemma_len();
        }
        let left = self.as_slice();
        let right = other.as_slice();
        let mut idx: usize = 0;
        while idx < left.len()
            invariant
                left@ == self@,
                right@ == other@,
                left@.len() == right@.len(),
                idx <= left@.len(),
                partial_order_specified::<A::Item>() ==> lexicographic_partial(
                    left@,
                    right@,
                    0,
                ) == lexicographic_partial(left@, right@, position(idx)),
            decreases left@.len() - idx,
        {
            let verdict = left[idx].partial_cmp(&right[idx]);
            match verdict {
                Some(Ordering::Equal) => {},
                _ => {
                    return verdict;
                },
            }
            idx = idx + 1;
        }
        Some(Ordering::Equal)
    }
}

impl<A> PartialOrdSpecImpl for ArrayWrapper<A> where A: Array, A::Item: PartialOrd {
    /// Wrappers are ordered as specified wherever their items are.
    open spec fn obeys_partial_cmp_spec() -> bool {
        partial_order_specified::<A::Item>()
    }

    /// Wrappers are ordered lexicographically, position by position.
    open spec fn partial_cmp_spec(&self, other: &Self) -> Option<Ordering> {
        lexicographic_partial(self@, other@, 0)
    }
}

impl<A> ArrayWrapper<A> where A: Array, A::Item: Ord {
    /// Orders two wrappers lexicographically, position by position.
    pub fn cmp(&self, other: &Self) -> (verdict: Ordering)
        ensures
            order_specified::<A::Item>() ==> verdict == lexicographic(self@, other@, 0),
    {
        proof {
            self.lemma_len();
            other.lemma_len();
        }
        let left = self.as_slice();
        let right = other.as_slice();
        let mut idx: usize = 0;
        while idx < left.len()
            invariant
                left@ == self@,
                right@ == other@,
                left@.len() == right@.len(),
                idx <= left@.len(),
                order_specified::<A::Item>() ==> lexicographic(left@, right@, 0)
                    == lexicographic(left@, right@, position(idx)),
            decreases left@.len() - idx,
        {
            let verdict = left[idx].cmp(&right[idx]);
            match verdict {
                Ordering::Equal => {},
                _ => {
                    return verdict;
                },
            }
            idx = idx + 1;
        }
        Ordering::Equal
    }
}

} // verus!
