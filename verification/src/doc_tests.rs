//! Instances for documentation tests

pub use crate::with_arrayvec::array_vec;
pub use crate::with_smallvec::small_vec;
pub use crate::with_tinyvec::{tiny_vec, tiny_vec_array_vec};
use std::collections::{BTreeMap, BTreeSet, HashMap, HashSet};
use vstd::prelude::*;

verus! {

/// Array with three elements
pub fn array() -> (array: [i32; 3])
    ensures
        array@ == seq![1i32, 2i32, 3i32],
{
    let array: [i32; 3] = [1, 2, 3];
    assert(array@ =~= seq![1i32, 2i32, 3i32]);
    array
}

/// `BTreeMap` with three elements
pub fn b_tree_map() -> (map: BTreeMap<i32, i32>)
    ensures
        map@ == map![0i32 => 1i32, 1i32 => 2i32, 2i32 => 3i32],
{
    broadcast use vstd::std_specs::btree::group_btree_axioms;
    broadcast use vstd::laws_cmp::group_laws_cmp;

    let mut map: BTreeMap<i32, i32> = BTreeMap::new();
    map.insert(0, 1);
    map.insert(1, 2);
    map.insert(2, 3);
    assert(map@ =~= map![0i32 => 1i32, 1i32 => 2i32, 2i32 => 3i32]);
    map
}

/// `BTreeSet` with three elements
pub fn b_tree_set() -> (set: BTreeSet<i32>)
    ensures
        set@ == set![1i32, 2i32, 3i32],
{
    broadcast use vstd::std_specs::btree::group_btree_axioms;
    broadcast use vstd::laws_cmp::group_laws_cmp;

    let mut set: BTreeSet<i32> = BTreeSet::new();
    set.insert(1);
    set.insert(2);
    set.insert(3);
    assert(set@ =~= set![1i32, 2i32, 3i32]);
    set
}

/// `HashMap` with three elements
pub fn hash_map() -> (map: HashMap<i32, i32>)
    ensures
        map@ == map![0i32 => 1i32, 1i32 => 2i32, 2i32 => 3i32],
{
    broadcast use vstd::std_specs::hash::group_hash_axioms;

    let mut map: HashMap<i32, i32> = HashMap::new();
    map.insert(0, 1);
    map.insert(1, 2);
    map.insert(2, 3);
    assert(map@ =~= map![0i32 => 1i32, 1i32 => 2i32, 2i32 => 3i32]);
    map
}

/// `HashSet` with three elements
pub fn hash_set() -> (set: HashSet<i32>)
    ensures
        set@ == set![1i32, 2i32, 3i32],
{
    broadcast use vstd::std_specs::hash::group_hash_axioms;

    let mut set: HashSet<i32> = HashSet::new();
    set.insert(1);
    set.insert(2);
    set.insert(3);
    assert(set@ =~= set![1i32, 2i32, 3i32]);
    set
}

/// Slice with three elements
pub fn slice() -> (slice: &'static [i32])
    ensures
        slice@ == seq![1i32, 2i32, 3i32],
{
    let slice: &'static [i32] = &[1, 2, 3];
    assert(slice@ =~= seq![1i32, 2i32, 3i32]);
    slice
}

/// `Vec` with three elements
pub fn vec() -> (vec: Vec<i32>)
    ensures
        vec@ == seq![1i32, 2i32, 3i32],
{
    let mut vec: Vec<i32> = Vec::with_capacity(5);
    vec.push(1);
    vec.push(2);
    vec.push(3);
    assert(vec@ =~= seq![1i32, 2i32, 3i32]);
    vec
}

} // verus!
