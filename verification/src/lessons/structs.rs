//! Structs lesson: named-field, tuple, and unit structs.

use vstd::prelude::*;

verus! {

/// A named-field struct.
#[derive(Debug)]
pub struct User {
    pub username: String,
    pub email: String,
    pub sign_in_count: u64,
    pub active: bool,
}

/// A small named-field struct used for the area computation.
#[derive(Debug)]
pub struct Rectangle {
    pub width: u32,
    pub height: u32,
}

/// A tuple struct: three color components.
#[derive(Debug)]
pub struct Color(pub u8, pub u8, pub u8);

/// A unit struct with no data at all.
#[derive(Debug)]
pub struct AlwaysEqual;

} // verus!
