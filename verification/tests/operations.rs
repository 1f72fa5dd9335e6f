use recursion::{CallTwice, CallTwiceRecursion, CloneNew, CloneRecursion, CopyNew, CopyRecursion, Recursion};
use std::cell::Cell;

fn double(x: &u32) -> Option<u32> {
    if *x >= 1000 {
        None
    } else {
        Some(*x * 2)
    }
}

fn settle(x: &u32) -> Option<u32> {
    Some(if *x < 7 { 7 } else { *x })
}

#[test]
fn set_then_next_on_copy_yields_one_step() {
    let mut seq = CopyRecursion::new(Some(1u32), double);
    assert_eq!(seq.set(5), Some(1));
    assert_eq!(seq.next(), double(&5));
    assert_eq!(seq.next(), Some(20));
}

#[test]
fn set_then_next_on_clone_yields_one_step() {
    let mut seq = CloneRecursion::new(Some(1u32), double);
    assert_eq!(seq.set(5), Some(1));
    assert_eq!(seq.next(), double(&5));
    assert_eq!(seq.next(), Some(20));
}

#[test]
fn set_then_next_on_call_twice_evaluates_the_same_step_twice() {
    let mut seq = CallTwiceRecursion::new(Some(1u32), double);
    assert_eq!(seq.set(5), Some(1));
    let out = seq.next();
    assert_eq!(out, Some(10));
    assert_ne!(out, double(&10));
    assert_eq!(seq.clear(), Some(10));
}

#[test]
fn set_then_next_on_call_twice_at_a_fixed_point() {
    let mut seq = CallTwiceRecursion::new(None, settle);
    assert_eq!(seq.set(3), None);
    let once = settle(&3);
    let twice = settle(&7);
    assert_eq!(once, twice);
    assert_eq!(seq.next(), twice);
    assert_eq!(seq.next(), Some(7));
}

#[test]
fn call_twice_calls_the_step_function_twice_per_next() {
    let calls = Cell::new(0u32);
    let counted = |x: &u32| {
        calls.set(calls.get() + 1);
        Some(*x + 1)
    };
    let mut seq = CallTwiceRecursion::new(Some(0u32), counted);
    assert_eq!(seq.next(), Some(1));
    assert_eq!(calls.get(), 2);
    assert_eq!(seq.next(), Some(2));
    assert_eq!(calls.get(), 4);
    seq.clear();
    assert_eq!(seq.next(), None);
    assert_eq!(calls.get(), 4);
}

#[test]
fn copy_and_clone_call_the_step_function_once_per_next() {
    let calls = Cell::new(0u32);
    let counted = |x: &u32| {
        calls.set(calls.get() + 1);
        Some(*x + 1)
    };
    let mut by_copy = CopyRecursion::new(Some(0u32), &counted);
    assert_eq!(by_copy.next(), Some(1));
    assert_eq!(by_copy.next(), Some(2));
    assert_eq!(calls.get(), 2);
    let mut by_clone = CloneRecursion::new(Some(0u32), &counted);
    assert_eq!(by_clone.next(), Some(1));
    assert_eq!(calls.get(), 3);
    by_clone.clear();
    assert_eq!(by_clone.next(), None);
    assert_eq!(calls.get(), 3);
}

#[test]
fn call_twice_with_an_impure_step_diverges() {
    let ticks = Cell::new(0u32);
    let impure = |x: &u32| {
        ticks.set(ticks.get() + 1);
        Some(*x + ticks.get())
    };
    let mut seq = CallTwiceRecursion::new(Some(100u32), impure);
    assert_eq!(seq.next(), Some(102));
    assert_eq!(seq.clear(), Some(101));
}

#[test]
fn clear_returns_the_retained_value_and_exhausts() {
    let mut seq = CopyRecursion::new(Some(3u32), double);
    assert_eq!(seq.next(), Some(6));
    assert_eq!(seq.clear(), Some(6));
    assert_eq!(seq.next(), None);
    assert_eq!(seq.next(), None);
    assert_eq!(seq.next(), None);
    assert_eq!(seq.set(4), None);
    assert_eq!(seq.next(), Some(8));
}

#[test]
fn clear_on_clone_and_call_twice_exhausts() {
    let mut by_clone = CloneRecursion::new(Some(3u32), double);
    assert_eq!(by_clone.clear(), Some(3));
    assert_eq!(by_clone.next(), None);
    assert_eq!(by_clone.next(), None);
    assert_eq!(by_clone.set(4), None);
    assert_eq!(by_clone.next(), Some(8));

    let mut by_two_calls = CallTwiceRecursion::new(Some(3u32), double);
    assert_eq!(by_two_calls.clear(), Some(3));
    assert_eq!(by_two_calls.next(), None);
    assert_eq!(by_two_calls.next(), None);
    assert_eq!(by_two_calls.set(4), None);
    assert_eq!(by_two_calls.next(), Some(8));
}

#[test]
fn clear_twice_returns_the_value_once() {
    let mut by_copy = CopyRecursion::new(Some(9u32), double);
    assert_eq!(by_copy.clear(), Some(9));
    assert_eq!(by_copy.clear(), None);

    let mut by_clone = CloneRecursion::new(Some(9u32), double);
    assert_eq!(by_clone.clear(), Some(9));
    assert_eq!(by_clone.clear(), None);

    let mut by_two_calls = CallTwiceRecursion::new(Some(9u32), double);
    assert_eq!(by_two_calls.clear(), Some(9));
    assert_eq!(by_two_calls.clear(), None);
}

#[test]
fn absent_seed_is_exhausted_from_the_start() {
    let mut by_copy = CopyRecursion::new(None, double);
    assert_eq!(by_copy.next(), None);
    assert_eq!(by_copy.clear(), None);
    assert_eq!(by_copy.set(1), None);
    assert_eq!(by_copy.next(), Some(2));

    let mut by_clone = CloneRecursion::new(None, double);
    assert_eq!(by_clone.next(), None);
    assert_eq!(by_clone.clear(), None);

    let mut by_two_calls = CallTwiceRecursion::new(None, double);
    assert_eq!(by_two_calls.next(), None);
    assert_eq!(by_two_calls.clear(), None);
}

#[test]
fn set_returns_the_previous_value() {
    let mut seq = CopyRecursion::new(Some(1u32), double);
    assert_eq!(seq.set(2), Some(1));
    assert_eq!(seq.set(3), Some(2));
    assert_eq!(seq.clear(), Some(3));
    assert_eq!(seq.set(4), None);
    assert_eq!(seq.clear(), Some(4));
}

#[test]
fn set_does_not_call_the_step_function() {
    let calls = Cell::new(0u32);
    let counted = |x: &u32| {
        calls.set(calls.get() + 1);
        Some(*x + 1)
    };
    let mut seq = CopyRecursion::new(Some(0u32), counted);
    seq.set(5);
    seq.clear();
    seq.set(6);
    assert_eq!(calls.get(), 0);
    assert_eq!(seq.next(), Some(7));
    assert_eq!(calls.get(), 1);
}

#[test]
fn last_value_before_the_end_is_returned() {
    let mut seq = CopyRecursion::new(Some(999u32), double);
    assert_eq!(seq.next(), Some(1998));
    assert_eq!(seq.next(), None);
    assert_eq!(seq.clear(), None);
}

#[test]
fn engine_with_copy_strategy() {
    let mut seq = Recursion::<u32, _, CopyNew>::new(Some(1), double);
    assert_eq!(seq.next(), Some(2));
    assert_eq!(seq.set(10), Some(2));
    assert_eq!(seq.next(), Some(20));
    assert_eq!(seq.clear(), Some(20));
    assert_eq!(seq.next(), None);
    assert_eq!(seq.clear(), None);
}

#[test]
fn engine_with_clone_strategy() {
    let mut seq = Recursion::<u32, _, CloneNew>::new(Some(1), double);
    assert_eq!(seq.next(), Some(2));
    assert_eq!(seq.set(10), Some(2));
    assert_eq!(seq.next(), Some(20));
    assert_eq!(seq.clear(), Some(20));
    assert_eq!(seq.next(), None);
    assert_eq!(seq.clear(), None);
}

#[test]
fn engine_with_call_twice_strategy() {
    let mut seq = Recursion::<u32, _, CallTwice>::new(Some(1), double);
    assert_eq!(seq.next(), Some(2));
    assert_eq!(seq.set(10), Some(2));
    assert_eq!(seq.next(), Some(20));
    assert_eq!(seq.clear(), Some(20));
    assert_eq!(seq.next(), None);
    assert_eq!(seq.clear(), None);
}

#[test]
fn function_pointers_are_step_functions() {
    let step: fn(&u32) -> Option<u32> = double;
    let mut seq = CopyRecursion::new(Some(250u32), step);
    assert_eq!(seq.next(), Some(500));
    assert_eq!(seq.next(), Some(1000));
    assert_eq!(seq.next(), None);
}
