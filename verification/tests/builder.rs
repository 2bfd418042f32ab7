use cl_traits::utils::ArrayGuard;
use cl_traits::{create_array, default_array, try_create_array};
use std::cell::Cell;
use std::rc::Rc;

#[derive(Debug, PartialEq)]
enum SomeError {
    Foo,
    At(usize),
}

/// Counts how often a value of it is dropped.
struct Counted {
    idx: usize,
    drops: Rc<Cell<usize>>,
}

impl Drop for Counted {
    fn drop(&mut self) {
        self.drops.set(self.drops.get() + 1);
    }
}

#[test]
fn create_array_holds_the_index_of_each_slot() {
    let array: [usize; 4] = create_array(|idx| idx);
    assert_eq!(array, [0, 1, 2, 3]);
}

#[test]
fn create_array_calls_the_generator_per_index() {
    let array: [usize; 4] = create_array(|idx| idx * 10);
    assert_eq!(array, [0, 10, 20, 30]);
}

#[test]
fn create_array_asks_in_ascending_order_exactly_once() {
    let mut asked = Vec::new();
    let array: [usize; 5] = create_array(|idx| {
        asked.push(idx);
        idx + 100
    });
    assert_eq!(asked, vec![0, 1, 2, 3, 4]);
    assert_eq!(array, [100, 101, 102, 103, 104]);
}

#[test]
fn create_array_feeds_a_stateful_counter() {
    let mut counter = 7;
    let array: [i32; 3] = create_array(|_| {
        counter += 1;
        counter
    });
    assert_eq!(array, [8, 9, 10]);
}

#[test]
fn create_array_takes_elements_without_default() {
    let array: [String; 3] = create_array(|idx| format!("item {}", idx));
    assert_eq!(array, ["item 0".to_string(), "item 1".to_string(), "item 2".to_string()]);
}

#[test]
fn create_array_of_no_elements_never_asks() {
    let mut calls = 0;
    let array: [u8; 0] = create_array(|_| {
        calls += 1;
        0
    });
    assert_eq!(array.len(), 0);
    assert_eq!(calls, 0);
}

#[test]
fn create_array_hands_every_element_to_the_caller() {
    let drops = Rc::new(Cell::new(0));
    let array: [Counted; 4] = create_array(|idx| Counted { idx, drops: drops.clone() });
    assert_eq!(drops.get(), 0);
    assert_eq!(array[3].idx, 3);
    drop(array);
    assert_eq!(drops.get(), 4);
}

#[test]
fn default_array_holds_defaults() {
    let array: [usize; 4] = default_array();
    assert_eq!(array, [0, 0, 0, 0]);
}

#[test]
fn default_array_of_strings_is_empty_strings() {
    let array: [String; 2] = default_array();
    assert_eq!(array, [String::new(), String::new()]);
}

#[test]
fn try_create_array_succeeds_where_the_generator_does() {
    let array: Result<[usize; 5], SomeError> = try_create_array(|i| Ok(i));
    assert_eq!(array, Ok([0, 1, 2, 3, 4]));
}

#[test]
fn try_create_array_fails_where_the_generator_does() {
    let another_array: Result<[usize; 5], SomeError> = try_create_array(|_| Err(SomeError::Foo));
    assert_eq!(another_array, Err(SomeError::Foo));
}

#[test]
fn try_create_array_builds_tens() {
    let result: Result<[usize; 4], SomeError> = try_create_array(|idx| Ok(idx * 10));
    assert_eq!(result, Ok([0, 10, 20, 30]));
}

#[test]
fn try_create_array_stops_at_the_first_failure() {
    let mut calls = 0;
    let result: Result<[usize; 4], SomeError> = try_create_array(|idx| {
        calls += 1;
        if idx == 2 {
            Err(SomeError::At(idx))
        } else {
            Ok(idx * 10)
        }
    });
    assert_eq!(result, Err(SomeError::At(2)));
    assert_eq!(calls, 3);
}

#[test]
fn try_create_array_reports_the_lowest_failing_index() {
    let result: Result<[usize; 6], SomeError> = try_create_array(|idx| {
        if idx >= 1 {
            Err(SomeError::At(idx))
        } else {
            Ok(idx)
        }
    });
    assert_eq!(result, Err(SomeError::At(1)));
}

#[test]
fn try_create_array_fails_at_the_last_index() {
    let mut calls = 0;
    let result: Result<[usize; 3], SomeError> = try_create_array(|idx| {
        calls += 1;
        if idx == 2 {
            Err(SomeError::At(idx))
        } else {
            Ok(idx)
        }
    });
    assert_eq!(result, Err(SomeError::At(2)));
    assert_eq!(calls, 3);
}

#[test]
fn try_create_array_drops_what_was_built_before_a_failure() {
    let drops = Rc::new(Cell::new(0));
    let result: Result<[Counted; 4], SomeError> = try_create_array(|idx| {
        if idx == 2 {
            Err(SomeError::At(idx))
        } else {
            Ok(Counted { idx, drops: drops.clone() })
        }
    });
    assert!(result.is_err());
    assert_eq!(drops.get(), 2);
}

#[test]
fn try_create_array_drops_nothing_on_success() {
    let drops = Rc::new(Cell::new(0));
    let result: Result<[Counted; 3], SomeError> =
        try_create_array(|idx| Ok(Counted { idx, drops: drops.clone() }));
    assert_eq!(drops.get(), 0);
    let array = result.unwrap();
    assert_eq!(array[1].idx, 1);
    drop(array);
    assert_eq!(drops.get(), 3);
}

#[test]
fn try_create_array_of_no_elements_never_asks() {
    let mut calls = 0;
    let result: Result<[u8; 0], SomeError> = try_create_array(|_| {
        calls += 1;
        Err(SomeError::Foo)
    });
    assert_eq!(result, Ok([]));
    assert_eq!(calls, 0);
}

#[test]
fn try_create_array_agrees_with_create_array_on_a_total_generator() {
    let plain: [u64; 6] = create_array(|idx| (idx as u64) * 3 + 1);
    let fallible: Result<[u64; 6], SomeError> = try_create_array(|idx| Ok((idx as u64) * 3 + 1));
    assert_eq!(fallible, Ok(plain));
}

#[test]
fn array_guard_starts_empty() {
    let guard: ArrayGuard<u8, 3> = ArrayGuard::new();
    assert_eq!(guard.initialized(), 0);
}

#[test]
fn array_guard_counts_what_was_written() {
    let mut guard: ArrayGuard<u8, 3> = ArrayGuard::new();
    guard.write(4);
    assert_eq!(guard.initialized(), 1);
    guard.write(5);
    assert_eq!(guard.initialized(), 2);
}

#[test]
fn array_guard_hands_over_the_complete_array() {
    let mut guard: ArrayGuard<u8, 3> = ArrayGuard::new();
    guard.write(4);
    guard.write(5);
    guard.write(6);
    assert_eq!(guard.initialized(), 3);
    assert_eq!(guard.finish(), [4, 5, 6]);
}

#[test]
fn array_guard_of_no_elements_is_complete_at_once() {
    let guard: ArrayGuard<u8, 0> = ArrayGuard::new();
    let array: [u8; 0] = guard.finish();
    assert_eq!(array.len(), 0);
}

#[test]
fn array_guard_drops_exactly_what_it_holds() {
    let drops = Rc::new(Cell::new(0));
    let mut guard: ArrayGuard<Counted, 4> = ArrayGuard::new();
    guard.write(Counted { idx: 0, drops: drops.clone() });
    guard.write(Counted { idx: 1, drops: drops.clone() });
    assert_eq!(drops.get(), 0);
    drop(guard);
    assert_eq!(drops.get(), 2);
}
