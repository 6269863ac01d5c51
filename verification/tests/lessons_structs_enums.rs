//! Tests for the structs, enums, and methods lessons.

use rust_lessons::lessons::enums_matching::{IpAddr, IpAddrKind, Message};
use rust_lessons::lessons::methods_assoc_fn::Rectangle;
use rust_lessons::lessons::structs::{Color, User};

#[test]
fn test_user_creation() {
    let user = User {
        email: String::from("test@example.com"),
        username: String::from("testuser"),
        active: true,
        sign_in_count: 1,
    };
    assert_eq!(user.email, "test@example.com");
    assert_eq!(user.username, "testuser");
    assert!(user.active);
}

#[test]
fn test_user_mutation() {
    let mut user = User {
        email: String::from("test@example.com"),
        username: String::from("test"),
        active: true,
        sign_in_count: 1,
    };
    user.sign_in_count = 2;
    assert_eq!(user.sign_in_count, 2);
}

#[test]
fn test_struct_update() {
    let user1 = User {
        email: String::from("user1@example.com"),
        username: String::from("user1"),
        active: true,
        sign_in_count: 5,
    };

    let user2 = User {
        email: String::from("user2@example.com"),
        username: String::from("user2"),
        ..user1
    };

    assert_eq!(user2.active, user1.active);
    assert_eq!(user2.sign_in_count, user1.sign_in_count);
}

#[test]
fn test_tuple_struct() {
    let color = Color(255, 128, 0);
    assert_eq!(color.0, 255);
    assert_eq!(color.1, 128);
    assert_eq!(color.2, 0);
}

#[test]
fn test_enum_creation() {
    let kind = IpAddrKind::V4;
    assert!(matches!(kind, IpAddrKind::V4));
}

#[test]
fn test_enum_with_data() {
    let ip = IpAddr::V4(127, 0, 0, 1);
    if let IpAddr::V4(a, b, c, d) = ip {
        assert_eq!(a, 127);
        assert_eq!(b, 0);
        assert_eq!(c, 0);
        assert_eq!(d, 1);
    }
}

#[test]
fn test_option() {
    let some_value = Some(10);
    assert_eq!(some_value.unwrap(), 10);

    let none_value: Option<i32> = None;
    assert_eq!(none_value.unwrap_or(0), 0);
}

#[test]
fn test_pattern_matching() {
    let msg = Message::Write(String::from("test"));
    if let Message::Write(text) = msg {
        assert_eq!(text, "test");
    } else {
        panic!("Pattern match failed");
    }
}

#[test]
fn test_match_exhaustive() {
    let value = Some(42);
    let result = match value {
        Some(x) => x * 2,
        None => 0,
    };
    assert_eq!(result, 84);
}

#[test]
fn methods_assoc_fn_test_rectangle_area() {
    let rect = Rectangle { width: 10, height: 20 };
    assert_eq!(rect.area(), 200);
}

#[test]
fn test_can_hold() {
    let rect1 = Rectangle { width: 30, height: 30 };
    let rect2 = Rectangle { width: 10, height: 10 };
    assert!(rect1.can_hold(&rect2));
    assert!(!rect2.can_hold(&rect1));
}

#[test]
fn test_square_associated_fn() {
    let square = Rectangle::square(10);
    assert_eq!(square.width, 10);
    assert_eq!(square.height, 10);
    assert!(square.is_square());
}

#[test]
fn message_variants_carry_their_data() {
    let m = Message::Move { x: 10, y: 20 };
    match m {
        Message::Move { x, y } => {
            assert_eq!(x, 10);
            assert_eq!(y, 20);
        }
        _ => panic!("wrong variant"),
    }
    assert!(matches!(Message::Quit, Message::Quit));
    assert!(matches!(Message::ChangeColor(1, 2, 3), Message::ChangeColor(1, 2, 3)));
}
