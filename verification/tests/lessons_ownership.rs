//! Tests for the ownership, borrowing, and slices lessons.

use rust_lessons::lessons::borrowing;
use rust_lessons::lessons::slices;

#[test]
fn test_copy_trait() {
    let x = 5;
    let y = x;
    assert_eq!(x, 5);
    assert_eq!(y, 5);
}

#[test]
fn test_clone() {
    let s1 = String::from("test");
    let s2 = s1.clone();
    assert_eq!(s1, "test");
    assert_eq!(s2, "test");
}

#[test]
fn test_immutable_reference() {
    let s = String::from("test");
    let len = borrowing::calculate_length(&s);
    assert_eq!(len, 4);
    assert_eq!(s, "test");
}

#[test]
fn test_mutable_reference() {
    let mut s = String::from("hello");
    borrowing::change(&mut s);
    assert_eq!(s, "hello, world");
}

#[test]
fn test_multiple_immutable_refs() {
    let s = String::from("value");
    let r1 = &s;
    let r2 = &s;
    let r3 = &s;
    assert_eq!(*r1, "value");
    assert_eq!(*r2, "value");
    assert_eq!(*r3, "value");
}

#[test]
fn test_mutable_reference_with_array() {
    let mut arr = vec![1, 2, 3];
    borrowing::add_element(&mut arr, 4);
    assert_eq!(arr, vec![1, 2, 3, 4]);
}

#[test]
fn get_first_returns_the_head_element() {
    let arr = vec![7, 8, 9];
    assert_eq!(borrowing::get_first(&arr), Some(&7));
    let empty: Vec<i32> = vec![];
    assert_eq!(borrowing::get_first(&empty), None);
}

#[test]
fn test_string_slice() {
    let s = String::from("hello");
    let slice = &s[1..3];
    assert_eq!(slice, "el");
}

#[test]
fn test_array_slice() {
    let arr = [1, 2, 3, 4, 5];
    let slice = &arr[1..4];
    assert_eq!(slice, [2, 3, 4]);
}

#[test]
fn slices_test_first_word() {
    assert_eq!(slices::first_word("hello world"), "hello");
    assert_eq!(slices::first_word("rust"), "rust");
    assert_eq!(slices::first_word(""), "");
}

#[test]
fn test_first_n() {
    let arr = [1, 2, 3, 4, 5];
    assert_eq!(slices::first_n(&arr, 3), [1, 2, 3]);
    assert_eq!(slices::first_n(&arr, 10), [1, 2, 3, 4, 5]);
    assert_eq!(slices::first_n(&arr, 0), []);
}

#[test]
fn test_modify_slice() {
    let mut arr = vec![1, 2, 3, 4, 5];
    slices::modify_first_two(&mut arr);
    assert_eq!(arr[0], 100);
    assert_eq!(arr[1], 200);
    assert_eq!(arr[2], 3);
}

#[test]
fn second_half_keeps_the_later_elements() {
    let arr = [1, 2, 3, 4, 5, 6];
    assert_eq!(slices::second_half(&arr), [4, 5, 6]);
    let odd = [1, 2, 3];
    assert_eq!(slices::second_half(&odd), [2, 3]);
    let short = [9];
    assert_eq!(slices::second_half(&short), [9]);
}

#[test]
fn modify_first_two_leaves_short_slices_alone() {
    let mut arr = vec![5];
    slices::modify_first_two(&mut arr);
    assert_eq!(arr, vec![5]);
}
