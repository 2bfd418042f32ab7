use cl_traits::doc_tests;
use cl_traits::{
    capacity_upper_bound_for_heap, Capacity, CapacityUpperBound, Clear, Insert, Length, Push,
    Remove, Retain, Swap, Truncate, WithCapacity,
};
use std::collections::{BTreeMap, BTreeSet, HashMap, HashSet};

#[test]
fn instances_hold_one_two_three() {
    assert_eq!(doc_tests::array(), [1, 2, 3]);
    assert_eq!(doc_tests::slice(), &[1, 2, 3][..]);
    assert_eq!(doc_tests::vec(), vec![1, 2, 3]);
    let map: Vec<(i32, i32)> = doc_tests::b_tree_map().into_iter().collect();
    assert_eq!(map, vec![(0, 1), (1, 2), (2, 3)]);
    let set: Vec<i32> = doc_tests::b_tree_set().into_iter().collect();
    assert_eq!(set, vec![1, 2, 3]);
    let mut hashed: Vec<(i32, i32)> = doc_tests::hash_map().into_iter().collect();
    hashed.sort();
    assert_eq!(hashed, vec![(0, 1), (1, 2), (2, 3)]);
    let mut hashed_set: Vec<i32> = doc_tests::hash_set().into_iter().collect();
    hashed_set.sort();
    assert_eq!(hashed_set, vec![1, 2, 3]);
}

#[test]
fn capacity_of_option_is_one() {
    assert_eq!(Capacity::capacity(&Some(0)), 1);
    assert_eq!(Capacity::capacity(&None::<i32>), 1);
}

#[test]
fn capacity_of_array_is_its_size() {
    let structure = doc_tests::array();
    assert_eq!(Capacity::capacity(&structure), 3);
}

#[test]
fn capacity_of_slices_is_their_length() {
    let structure = doc_tests::slice();
    assert_eq!(Capacity::capacity(&structure), 3);
    assert_eq!(Capacity::capacity(&&mut [1, 2, 3, 4][..]), 4);
}

#[test]
fn capacity_of_vec_covers_its_elements() {
    let structure = doc_tests::vec();
    assert_eq!(Capacity::capacity(&structure), 5);
    assert!(Capacity::capacity(&vec![1, 2, 3, 4, 5, 6]) >= 6);
}

#[test]
fn capacity_upper_bound_of_fixed_storage() {
    assert_eq!(CapacityUpperBound::capacity_upper_bound(&Some(0)), 1);
    let array = doc_tests::array();
    assert_eq!(CapacityUpperBound::capacity_upper_bound(&array), 3);
    let slice = doc_tests::slice();
    assert_eq!(CapacityUpperBound::capacity_upper_bound(&slice), 3);
    assert_eq!(CapacityUpperBound::capacity_upper_bound(&&mut [1, 2, 3][..]), 3);
}

#[test]
fn capacity_upper_bound_of_heap_storage() {
    let structure = doc_tests::vec();
    assert_eq!(
        CapacityUpperBound::capacity_upper_bound(&structure),
        (isize::MAX as usize) / 4
    );
    assert_eq!(capacity_upper_bound_for_heap::<u8>(), isize::MAX as usize);
    assert_eq!(capacity_upper_bound_for_heap::<u64>(), (isize::MAX as usize) / 8);
    assert_eq!(capacity_upper_bound_for_heap::<[u8; 3]>(), (isize::MAX as usize) / 3);
}

#[test]
fn clear_empties() {
    let mut opt = Some(0);
    Clear::clear(&mut opt);
    assert_eq!(opt, None);
    let mut structure = doc_tests::vec();
    Clear::clear(&mut structure);
    assert_eq!(structure.len(), 0);
}

#[test]
fn insert_into_b_tree_map() {
    let mut structure = doc_tests::b_tree_map();
    assert_eq!(Insert::insert(&mut structure, (10, 100)), Ok(None));
    assert_eq!(structure.iter().find(|(k, _)| **k == 10), Some((&10, &100)));
    assert_eq!(Insert::insert(&mut structure, (10, 101)), Ok(Some(100)));
    assert_eq!(structure.get(&10), Some(&101));
    assert_eq!(structure.len(), 4);
}

#[test]
fn insert_into_b_tree_set() {
    let mut structure = doc_tests::b_tree_set();
    assert_eq!(Insert::insert(&mut structure, 10), Ok(()));
    assert_eq!(structure.iter().find(|&&e| e == 10), Some(&10));
    assert_eq!(Insert::insert(&mut structure, 10), Err(10));
    assert_eq!(structure.len(), 4);
    let empty: BTreeSet<i32> = BTreeSet::new();
    assert!(empty.is_empty());
}

#[test]
fn insert_into_hash_map() {
    let mut structure = doc_tests::hash_map();
    assert_eq!(Insert::insert(&mut structure, (10, 100)), Ok(None));
    assert_eq!(structure.iter().find(|(k, _)| **k == 10), Some((&10, &100)));
    assert_eq!(Insert::insert(&mut structure, (0, 5)), Ok(Some(1)));
    assert_eq!(structure.len(), 4);
    let mut other: HashMap<String, u8> = HashMap::new();
    assert_eq!(Insert::insert(&mut other, (String::from("a"), 1)), Ok(None));
}

#[test]
fn insert_into_hash_set() {
    let mut structure = doc_tests::hash_set();
    assert_eq!(Insert::insert(&mut structure, 10), Ok(()));
    assert_eq!(structure.iter().find(|&&e| e == 10), Some(&10));
    assert_eq!(Insert::insert(&mut structure, 1), Err(1));
    assert_eq!(structure.len(), 4);
    let empty: HashSet<i32> = HashSet::new();
    assert!(empty.is_empty());
    let map: BTreeMap<i32, i32> = BTreeMap::new();
    assert!(map.is_empty());
}

#[test]
fn insert_into_option() {
    let mut opt = None;
    assert_eq!(Insert::insert(&mut opt, 3), Ok(()));
    assert_eq!(opt, Some(3));
    assert_eq!(Insert::insert(&mut opt, 4), Err(4));
    assert_eq!(opt, Some(3));
}

#[test]
fn insert_into_vec() {
    let mut structure = doc_tests::vec();
    assert_eq!(Insert::insert(&mut structure, (0, 10)), Ok(()));
    assert_eq!(structure.get(0), Some(&10));
    assert_eq!(structure, vec![10, 1, 2, 3]);
    assert_eq!(Insert::insert(&mut structure, (4, 40)), Ok(()));
    assert_eq!(structure, vec![10, 1, 2, 3, 40]);
    assert_eq!(Insert::insert(&mut structure, (6, 60)), Err(60));
    assert_eq!(structure, vec![10, 1, 2, 3, 40]);
}

#[test]
fn length_counts_elements() {
    let mut opt = Some(0);
    assert_eq!(Length::length(&opt), 1);
    opt.take();
    assert_eq!(Length::length(&opt), 0);
    let slice = doc_tests::slice();
    assert_eq!(Length::length(&slice), 3);
    assert_eq!(Length::length(&&mut [1, 2, 3][..]), 3);
    let array = doc_tests::array();
    assert_eq!(Length::length(&array), 3);
    let vec = doc_tests::vec();
    assert_eq!(Length::length(&vec), 3);
}

#[test]
fn push_into_option() {
    let mut opt = None;
    assert_eq!(Push::push(&mut opt, 3), Ok(()));
    assert_eq!(opt, Some(3));
    assert_eq!(Push::push(&mut opt, 4), Err(4));
    assert_eq!(opt, Some(3));
}

#[test]
fn push_into_vec() {
    let mut structure = doc_tests::vec();
    assert!(Push::push(&mut structure, 20).is_ok());
    assert_eq!(structure.get(3), Some(&20));
    assert_eq!(structure, vec![1, 2, 3, 20]);
}

#[test]
fn remove_from_vec() {
    let mut structure = doc_tests::vec();
    assert_eq!(Remove::remove(&mut structure, 0), Ok(1));
    assert_eq!(structure.get(0), Some(&2));
    assert_eq!(Remove::remove(&mut structure, 2), Err(()));
    assert_eq!(structure, vec![2, 3]);
    assert_eq!(Remove::remove(&mut structure, 1), Ok(3));
    assert_eq!(structure, vec![2]);
}

#[test]
fn retain_in_option() {
    let mut opt = Some(1);
    Retain::retain(&mut opt, |n: &i32| n % 2 == 0);
    assert_eq!(opt, None);
    let mut even = Some(2);
    Retain::retain(&mut even, |n: &i32| n % 2 == 0);
    assert_eq!(even, Some(2));
    let mut none: Option<i32> = None;
    Retain::retain(&mut none, |n: &i32| n % 2 == 0);
    assert_eq!(none, None);
}

#[test]
fn retain_in_vec() {
    let mut structure = doc_tests::vec();
    Retain::retain(&mut structure, |n: &i32| n % 2 == 0);
    assert_eq!(&structure, &[2]);
    let mut more = vec![5, 6, 7, 8, 9];
    Retain::retain(&mut more, |n: &i32| *n != 7);
    assert_eq!(more, vec![5, 6, 8, 9]);
}

#[test]
fn retain_takes_a_plain_function() {
    fn is_even(n: &i32) -> bool {
        n % 2 == 0
    }
    let keep: fn(&i32) -> bool = is_even;
    let mut structure = doc_tests::vec();
    Retain::retain(&mut structure, keep);
    assert_eq!(structure, vec![2]);
}

#[test]
fn swap_in_array() {
    let mut structure = doc_tests::array();
    assert_eq!(Swap::swap(&mut structure, [0, 2]), Ok(()));
    assert_eq!(structure.get(0), Some(&3));
    assert_eq!(structure.get(2), Some(&1));
    assert_eq!(Swap::swap(&mut structure, [0, 3]), Err(()));
    assert_eq!(Swap::swap(&mut structure, [3, 0]), Err(()));
    assert_eq!(structure, [3, 2, 1]);
    assert_eq!(Swap::swap(&mut structure, [1, 1]), Ok(()));
    assert_eq!(structure, [3, 2, 1]);
}

#[test]
fn swap_in_mutable_slice() {
    let mut storage = [1, 2, 3];
    let mut structure = &mut storage[..];
    assert_eq!(Swap::swap(&mut structure, [0, 2]), Ok(()));
    assert_eq!(structure.get(0), Some(&3));
    assert_eq!(structure.get(2), Some(&1));
    assert_eq!(Swap::swap(&mut structure, [5, 0]), Err(()));
    assert_eq!(storage, [3, 2, 1]);
}

#[test]
fn swap_in_vec() {
    let mut structure = doc_tests::vec();
    assert_eq!(Swap::swap(&mut structure, [0, 2]), Ok(()));
    assert_eq!(structure.get(0), Some(&3));
    assert_eq!(structure.get(2), Some(&1));
    assert_eq!(Swap::swap(&mut structure, [0, 1]), Ok(()));
    assert_eq!(structure, vec![2, 3, 1]);
    assert_eq!(Swap::swap(&mut structure, [0, 3]), Err(()));
}

#[test]
fn truncate_option() {
    let mut opt = Some(4);
    Truncate::truncate(&mut opt, 1);
    assert_eq!(opt, Some(4));
    Truncate::truncate(&mut opt, 0);
    assert_eq!(opt, None);
}

#[test]
fn truncate_vec() {
    let mut structure = doc_tests::vec();
    Truncate::truncate(&mut structure, 5);
    assert_eq!(structure, vec![1, 2, 3]);
    Truncate::truncate(&mut structure, 1);
    assert_eq!(structure.len(), 1);
    assert_eq!(structure, vec![1]);
}

#[test]
fn with_capacity_creates_empty_storage() {
    let structure: [i32; 5] = WithCapacity::with_capacity(Default::default());
    assert_eq!(structure.capacity(), 5);
    assert_eq!(structure, [0, 0, 0, 0, 0]);
    let option: Option<i32> = WithCapacity::with_capacity(Default::default());
    assert_eq!(option, None);
    let vec: Vec<i32> = WithCapacity::with_capacity(2);
    assert_eq!(Capacity::capacity(&vec), 2);
    assert!(vec.is_empty());
}
