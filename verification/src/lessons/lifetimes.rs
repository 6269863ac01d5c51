//! Lifetimes lesson: functions whose returned references borrow from
//! their arguments.

use vstd::prelude::*;
use crate::lessons::slices::spec_first_word;

verus! {

/// The longer of two texts, by character count; ties go to the second.
pub fn longest<'a>(x: &'a str, y: &'a str) -> (r: &'a str)
    ensures
        r@ == if x@.len() > y@.len() {
            x@
        } else {
            y@
        },
{
    if x.unicode_len() > y.unicode_len() {
        x
    } else {
        y
    }
}

/// The part of the text before its first space, or all of it when it has
/// no space.
pub fn first_word<'a>(s: &'a str) -> (r: &'a str)
    ensures
        r@ == spec_first_word(s@),
{
    crate::lessons::slices::first_word(s)
}

/// A struct holding a reference, so its lifetime is tied to the text it
/// borrows from.
pub struct ImportantExcerpt<'a> {
    pub part: &'a str,
}

impl<'a> ImportantExcerpt<'a> {
    /// A fixed level of importance.
    pub fn level(&self) -> (r: i32)
        ensures
            r == 3,
    {
        3
    }
}

} // verus!
