//! Tests for the collections, iterators, error-handling, modules, and
//! macros lessons.

use std::collections::HashMap;

use rust_lessons::lessons::error_handling::{divide_and_validate, AppError};
use rust_lessons::lessons::iterators_closures::Counter;
use rust_lessons::lessons::modules_crates;

#[test]
fn test_vector_push_pop() {
    let mut v = Vec::new();
    v.push(1);
    v.push(2);
    v.push(3);
    assert_eq!(v.pop(), Some(3));
    assert_eq!(v.len(), 2);
}

#[test]
fn test_vector_get() {
    let v = vec![1, 2, 3];
    assert_eq!(v.get(1), Some(&2));
    assert_eq!(v.get(10), None);
}

#[test]
fn test_string_concat() {
    let mut s = String::from("Hello");
    s.push_str(" World");
    assert_eq!(s, "Hello World");
}

#[test]
fn test_hashmap_insert_get() {
    let mut map = HashMap::new();
    map.insert("key", 42);
    assert_eq!(map.get("key"), Some(&42));
}

#[test]
fn test_hashmap_or_insert() {
    let mut map = HashMap::new();
    map.insert("a", 1);

    let count = map.entry("a").or_insert(0);
    *count += 1;
    assert_eq!(map.get("a"), Some(&2));

    let count = map.entry("b").or_insert(0);
    *count += 1;
    assert_eq!(map.get("b"), Some(&1));
}

#[test]
fn test_collect_into_vec() {
    let v: Vec<i32> = (0..5).collect();
    assert_eq!(v, vec![0, 1, 2, 3, 4]);
}

#[test]
fn test_iterator_sum() {
    let v = vec![1, 2, 3, 4, 5];
    let sum: i32 = v.iter().sum();
    assert_eq!(sum, 15);
}

#[test]
fn test_map_collect() {
    let v = vec![1, 2, 3];
    let doubled: Vec<_> = v.iter().map(|x| x * 2).collect();
    assert_eq!(doubled, vec![2, 4, 6]);
}

#[test]
fn test_filter() {
    let v = vec![1, 2, 3, 4, 5];
    let evens: Vec<_> = v.into_iter().filter(|x| x % 2 == 0).collect();
    assert_eq!(evens, vec![2, 4]);
}

#[test]
fn test_fold() {
    let v = vec![1, 2, 3, 4, 5];
    let sum = v.iter().fold(0, |acc, x| acc + x);
    assert_eq!(sum, 15);
}

#[test]
fn test_closure() {
    let add = |x, y| x + y;
    assert_eq!(add(2, 3), 5);
}

#[test]
fn test_closure_capture() {
    let x = 10;
    let add_x = |y| x + y;
    assert_eq!(add_x(5), 15);
}

#[test]
fn test_custom_iterator() {
    let mut counter = Counter::new();
    assert_eq!(counter.next(), Some(1));
    assert_eq!(counter.next(), Some(2));
    assert_eq!(counter.next(), Some(3));
    assert_eq!(counter.next(), Some(4));
    assert_eq!(counter.next(), Some(5));
    assert_eq!(counter.next(), None);
}

#[test]
fn test_iterator_methods() {
    let mut counter = Counter::new();
    let mut sum: u32 = 0;
    while let Some(n) = counter.next() {
        sum += n;
    }
    assert_eq!(sum, 15); // 1+2+3+4+5
}

#[test]
fn test_option_some() {
    let x = Some(5);
    assert_eq!(x.unwrap(), 5);
}

#[test]
fn test_option_none() {
    let x: Option<i32> = None;
    assert_eq!(x.unwrap_or(0), 0);
}

#[test]
fn test_result_ok() {
    let x: Result<i32, &str> = Ok(42);
    assert_eq!(x.unwrap(), 42);
}

#[test]
fn test_result_err() {
    let x: Result<i32, &str> = Err("error");
    assert!(x.is_err());
}

#[test]
fn test_custom_error_display() {
    let err = AppError::FileNotFound(String::from("test.txt"));
    let err_str = err.message();
    assert!(err_str.contains("File not found"));
}

#[test]
fn app_error_messages_name_each_failure() {
    assert_eq!(
        AppError::FileNotFound(String::from("data.txt")).message(),
        "File not found: data.txt"
    );
    assert_eq!(
        AppError::ParseError(String::from("bad digit")).message(),
        "Parse error: bad digit"
    );
    assert_eq!(
        AppError::InvalidInput(String::from("empty")).message(),
        "Invalid input: empty"
    );
}

#[test]
fn divide_and_validate_rejects_a_zero_divisor() {
    assert_eq!(divide_and_validate(42, 2).unwrap(), 21);
    assert_eq!(divide_and_validate(100, 4).unwrap(), 25);
    match divide_and_validate(10, 0) {
        Err(AppError::InvalidInput(m)) => assert_eq!(m, "Cannot divide by zero"),
        _ => panic!("expected an invalid-input error"),
    }
}

#[test]
fn test_visibility() {
    assert_eq!(modules_crates::public(), 100);
}

#[test]
fn is_palindrome_ignores_case_and_punctuation() {
    assert!(modules_crates::is_palindrome("racecar"));
    assert!(modules_crates::is_palindrome("No lemon, no melon"));
    assert!(modules_crates::is_palindrome(""));
    assert!(!modules_crates::is_palindrome("hello"));
}

#[test]
fn api_client_renders_request_lines() {
    let client = modules_crates::ApiClient::new(String::from("https://api.example.com"));
    assert_eq!(client.get("users"), "GET https://api.example.com/users");
}

#[test]
fn database_keeps_host_and_port() {
    let db = modules_crates::Database::new(String::from("localhost"), 3306);
    assert_eq!(db.host, "localhost");
    assert_eq!(db.port, 3306);
}

#[test]
fn test_create_vec_macro() {
    // The lesson's vec-building macro expands to pushes on a fresh vector.
    let v = {
        let mut temp_vec = Vec::new();
        temp_vec.push(1);
        temp_vec.push(2);
        temp_vec.push(3);
        temp_vec
    };
    assert_eq!(v, vec![1, 2, 3]);
}

#[test]
fn test_find_min_macro() {
    // The lesson's minimum macro expands to nested comparisons.
    let min = {
        let a = 10;
        let b = {
            let c = 5;
            let d = {
                let e = 8;
                let f = {
                    let g = 3;
                    let h = 15;
                    if g < h { g } else { h }
                };
                if e < f { e } else { f }
            };
            if c < d { c } else { d }
        };
        if a < b { a } else { b }
    };
    assert_eq!(min, 3);
}

#[test]
fn test_calculate_macro() {
    // The lesson's calculator macro expands to plain arithmetic.
    assert_eq!(2 + 3, 5);
    assert_eq!(4 * 5, 20);
}

#[test]
fn test_repeat_macro() {
    // The lesson's repetition macro expands to a counted push loop.
    let v = {
        let mut vec = Vec::new();
        for _ in 0..3 {
            vec.push(42);
        }
        vec
    };
    assert_eq!(v, vec![42, 42, 42]);
}

#[test]
fn test_hashmap_macro() {
    // The lesson's map-building macro expands to inserts on a fresh map.
    let map = {
        let mut map = HashMap::new();
        map.insert("a", 1);
        map.insert("b", 2);
        map
    };
    assert_eq!(map.get("a"), Some(&1));
    assert_eq!(map.get("b"), Some(&2));
}
