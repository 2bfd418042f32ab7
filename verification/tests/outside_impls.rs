use cl_traits::doc_tests::array_vec;
use cl_traits::doc_tests::small_vec;
use cl_traits::with_smallvec::SmallIntVec;
use cl_traits::doc_tests::{tiny_vec, tiny_vec_array_vec};
use cl_traits::with_tinyvec::TinyIntVec;
use cl_traits::{
    Capacity, CapacityUpperBound, Clear, Insert, Length, Push, Remove, Retain, Swap, Truncate,
    WithCapacity,
};

#[test]
fn array_vec_holds_one_two_three() {
    let structure = array_vec();
    assert_eq!(&structure[..], &[1, 2, 3]);
    assert_eq!(Length::length(&structure), 3);
    assert_eq!(Capacity::capacity(&structure), 5);
    assert_eq!(CapacityUpperBound::capacity_upper_bound(&structure), 5);
}

#[test]
fn array_vec_clear_and_truncate() {
    let mut structure = array_vec();
    Truncate::truncate(&mut structure, 4);
    assert_eq!(&structure[..], &[1, 2, 3]);
    Truncate::truncate(&mut structure, 1);
    assert_eq!(structure.len(), 1);
    assert_eq!(&structure[..], &[1]);
    Clear::clear(&mut structure);
    assert_eq!(structure.len(), 0);
}

#[test]
fn array_vec_push_until_full() {
    let mut structure = array_vec();
    assert_eq!(Push::push(&mut structure, 20), Ok(()));
    assert_eq!(structure.get(3), Some(&20));
    assert_eq!(Push::push(&mut structure, 30), Ok(()));
    assert_eq!(Push::push(&mut structure, 40), Err(40));
    assert_eq!(&structure[..], &[1, 2, 3, 20, 30]);
}

#[test]
fn array_vec_insert_and_remove() {
    let mut structure = array_vec();
    assert_eq!(Insert::insert(&mut structure, (0, 10)), Ok(()));
    assert_eq!(structure.get(0), Some(&10));
    assert_eq!(Insert::insert(&mut structure, (5, 50)), Err(50));
    assert_eq!(&structure[..], &[10, 1, 2, 3]);
    assert_eq!(Remove::remove(&mut structure, 0), Ok(10));
    assert_eq!(structure.get(0), Some(&1));
    assert_eq!(Remove::remove(&mut structure, 3), Err(()));
    assert_eq!(Remove::remove(&mut structure, 1), Ok(2));
    assert_eq!(&structure[..], &[1, 3]);
}

#[test]
fn array_vec_retain_and_swap() {
    let mut structure = array_vec();
    assert_eq!(Swap::swap(&mut structure, [0, 2]), Ok(()));
    assert_eq!(structure.get(0), Some(&3));
    assert_eq!(structure.get(2), Some(&1));
    assert_eq!(Swap::swap(&mut structure, [0, 3]), Err(()));
    Retain::retain(&mut structure, |n: &i32| n % 2 == 1);
    assert_eq!(&structure[..], &[3, 1]);
    let mut other = array_vec();
    Retain::retain(&mut other, |n: &i32| n % 2 == 0);
    assert_eq!(&other[..], &[2]);
}

#[test]
fn array_vec_with_capacity_is_empty() {
    let structure: arrayvec::ArrayVec<i32, 5> = WithCapacity::with_capacity(Default::default());
    assert_eq!(structure.capacity(), 5);
    assert_eq!(Length::length(&structure), 0);
}

#[test]
fn small_vec_holds_one_two_three() {
    let structure = small_vec();
    assert_eq!(structure.as_slice(), &[1, 2, 3]);
    assert_eq!(Length::length(&structure), 3);
    assert_eq!(Capacity::capacity(&structure), 5);
    assert_eq!(
        CapacityUpperBound::capacity_upper_bound(&structure),
        (isize::MAX as usize) / 4
    );
}

#[test]
fn small_vec_clear_and_truncate() {
    let mut structure = small_vec();
    Truncate::truncate(&mut structure, 3);
    assert_eq!(structure.as_slice(), &[1, 2, 3]);
    Truncate::truncate(&mut structure, 1);
    assert_eq!(structure.as_slice(), &[1]);
    Clear::clear(&mut structure);
    assert_eq!(Length::length(&structure), 0);
}

#[test]
fn small_vec_push_beyond_inline() {
    let mut structure = small_vec();
    assert_eq!(Push::push(&mut structure, 20), Ok(()));
    assert_eq!(structure.as_slice().get(3), Some(&20));
    assert_eq!(Push::push(&mut structure, 30), Ok(()));
    assert_eq!(Push::push(&mut structure, 40), Ok(()));
    assert_eq!(structure.as_slice(), &[1, 2, 3, 20, 30, 40]);
    assert!(Capacity::capacity(&structure) >= 6);
}

#[test]
fn small_vec_insert_and_remove() {
    let mut structure = small_vec();
    assert_eq!(Insert::insert(&mut structure, (0, 10)), Ok(()));
    assert_eq!(structure.as_slice().get(0), Some(&10));
    assert_eq!(Insert::insert(&mut structure, (5, 50)), Err(50));
    assert_eq!(structure.as_slice(), &[10, 1, 2, 3]);
    assert_eq!(Remove::remove(&mut structure, 0), Ok(10));
    assert_eq!(structure.as_slice().get(0), Some(&1));
    assert_eq!(Remove::remove(&mut structure, 3), Err(()));
    assert_eq!(structure.as_slice(), &[1, 2, 3]);
}

#[test]
fn small_vec_retain_and_swap() {
    let mut structure = small_vec();
    assert_eq!(Swap::swap(&mut structure, [0, 2]), Ok(()));
    assert_eq!(structure.as_slice(), &[3, 2, 1]);
    assert_eq!(Swap::swap(&mut structure, [3, 0]), Err(()));
    Retain::retain(&mut structure, |n: &i32| n % 2 == 0);
    assert_eq!(structure.as_slice(), &[2]);
}

#[test]
fn small_vec_with_capacity_is_empty() {
    let structure: SmallIntVec = WithCapacity::with_capacity(Default::default());
    assert_eq!(Capacity::capacity(&structure), 5);
    assert_eq!(Length::length(&structure), 0);
    let roomy: SmallIntVec = WithCapacity::with_capacity(9);
    assert!(Capacity::capacity(&roomy) >= 9);
    assert_eq!(roomy.as_slice().len(), 0);
}

#[test]
fn tiny_vec_array_vec_holds_one_two_three() {
    let structure = tiny_vec_array_vec();
    assert_eq!(&structure[..], &[1, 2, 3]);
    assert_eq!(Length::length(&structure), 3);
    assert_eq!(Capacity::capacity(&structure), 5);
    assert_eq!(CapacityUpperBound::capacity_upper_bound(&structure), 5);
}

#[test]
fn tiny_vec_array_vec_clear_and_truncate() {
    let mut structure = tiny_vec_array_vec();
    Truncate::truncate(&mut structure, 7);
    assert_eq!(&structure[..], &[1, 2, 3]);
    Truncate::truncate(&mut structure, 1);
    assert_eq!(structure.len(), 1);
    Clear::clear(&mut structure);
    assert_eq!(structure.len(), 0);
}

#[test]
fn tiny_vec_array_vec_push_until_full() {
    let mut structure = tiny_vec_array_vec();
    assert_eq!(Push::push(&mut structure, 20), Ok(()));
    assert_eq!(structure.get(3), Some(&20));
    assert_eq!(Push::push(&mut structure, 30), Ok(()));
    assert_eq!(Push::push(&mut structure, 40), Err(40));
    assert_eq!(&structure[..], &[1, 2, 3, 20, 30]);
}

#[test]
fn tiny_vec_array_vec_insert_and_remove() {
    let mut structure = tiny_vec_array_vec();
    assert_eq!(Insert::insert(&mut structure, (0, 10)), Ok(()));
    assert_eq!(structure.get(0), Some(&10));
    assert_eq!(Insert::insert(&mut structure, (5, 50)), Err(50));
    assert_eq!(Remove::remove(&mut structure, 0), Ok(10));
    assert_eq!(structure.get(0), Some(&1));
    assert_eq!(Remove::remove(&mut structure, 3), Err(()));
    assert_eq!(Remove::remove(&mut structure, 2), Ok(3));
    assert_eq!(&structure[..], &[1, 2]);
}

#[test]
fn tiny_vec_array_vec_retain_and_swap() {
    let mut structure = tiny_vec_array_vec();
    assert_eq!(Swap::swap(&mut structure, [0, 2]), Ok(()));
    assert_eq!(structure.get(0), Some(&3));
    assert_eq!(structure.get(2), Some(&1));
    assert_eq!(Swap::swap(&mut structure, [0, 3]), Err(()));
    Retain::retain(&mut structure, |n: &i32| n % 2 == 0);
    assert_eq!(&structure[..], &[2]);
}

#[test]
fn tiny_vec_array_vec_with_capacity_is_empty() {
    let structure: tinyvec::ArrayVec<[i32; 5]> = WithCapacity::with_capacity(Default::default());
    assert_eq!(structure.capacity(), 5);
    assert_eq!(structure.len(), 0);
}

#[test]
fn tiny_vec_holds_one_two_three() {
    let structure = tiny_vec();
    assert_eq!(structure.as_slice(), &[1, 2, 3]);
    assert_eq!(Length::length(&structure), 3);
    assert_eq!(Capacity::capacity(&structure), 5);
    assert_eq!(
        CapacityUpperBound::capacity_upper_bound(&structure),
        (isize::MAX as usize) / 4
    );
}

#[test]
fn tiny_vec_clear_and_truncate() {
    let mut structure = tiny_vec();
    Truncate::truncate(&mut structure, 3);
    assert_eq!(structure.as_slice(), &[1, 2, 3]);
    Truncate::truncate(&mut structure, 1);
    assert_eq!(structure.as_slice(), &[1]);
    Clear::clear(&mut structure);
    assert_eq!(Length::length(&structure), 0);
}

#[test]
fn tiny_vec_push_beyond_inline() {
    let mut structure = tiny_vec();
    assert_eq!(Push::push(&mut structure, 20), Ok(()));
    assert_eq!(structure.as_slice().get(3), Some(&20));
    assert_eq!(Push::push(&mut structure, 30), Ok(()));
    assert_eq!(Push::push(&mut structure, 40), Ok(()));
    assert_eq!(structure.as_slice(), &[1, 2, 3, 20, 30, 40]);
    assert!(Capacity::capacity(&structure) >= 6);
}

#[test]
fn tiny_vec_insert_and_remove() {
    let mut structure = tiny_vec();
    assert_eq!(Insert::insert(&mut structure, (0, 10)), Ok(()));
    assert_eq!(structure.as_slice().get(0), Some(&10));
    assert_eq!(Insert::insert(&mut structure, (5, 50)), Err(50));
    assert_eq!(Insert::insert(&mut structure, (4, 40)), Ok(()));
    assert_eq!(Insert::insert(&mut structure, (2, 22)), Ok(()));
    assert_eq!(structure.as_slice(), &[10, 1, 22, 2, 3, 40]);
    assert_eq!(Remove::remove(&mut structure, 0), Ok(10));
    assert_eq!(Remove::remove(&mut structure, 5), Err(()));
    assert_eq!(structure.as_slice(), &[1, 22, 2, 3, 40]);
}

#[test]
fn tiny_vec_retain_and_swap() {
    let mut structure = tiny_vec();
    assert_eq!(Swap::swap(&mut structure, [0, 2]), Ok(()));
    assert_eq!(structure.as_slice(), &[3, 2, 1]);
    assert_eq!(Swap::swap(&mut structure, [0, 3]), Err(()));
    Retain::retain(&mut structure, |n: &i32| n % 2 == 0);
    assert_eq!(structure.as_slice(), &[2]);
}

#[test]
fn tiny_vec_with_capacity_is_empty() {
    let structure: TinyIntVec = WithCapacity::with_capacity(Default::default());
    assert_eq!(Capacity::capacity(&structure), 5);
    assert_eq!(Length::length(&structure), 0);
}
