//! Enums lesson: plain variants, variants with data, and matching.

use vstd::prelude::*;

verus! {

/// An enum of bare variants.
#[derive(Debug)]
pub enum IpAddrKind {
    V4,
    V6,
}

/// An enum whose variants carry data of different shapes.
#[derive(Debug)]
pub enum IpAddr {
    V4(u8, u8, u8, u8),
    V6(String),
}

/// An enum mixing unit, struct-like, and tuple-like variants.
#[derive(Debug)]
pub enum Message {
    Quit,
    Move { x: i32, y: i32 },
    Write(String),
    ChangeColor(i32, i32, i32),
}

} // verus!
