//! Borrowing lesson: functions that borrow their arguments, immutably or
//! mutably, instead of taking ownership.

use vstd::prelude::*;

verus! {

/// Length of a borrowed string, in characters.
pub fn calculate_length(s: &String) -> (len: usize)
    ensures
        len == s@.len(),
{
    s.as_str().unicode_len()
}

/// Appends ", world" to a mutably borrowed string.
pub fn change(s: &mut String)
    ensures
        final(s)@ == old(s)@ + ", world"@,
{
    s.append(", world");
}

/// Appends one element to a mutably borrowed vector.
pub fn add_element(arr: &mut Vec<i32>, value: i32)
    ensures
        final(arr)@ == old(arr)@.push(value),
{
    arr.push(value);
}

/// The first element of a borrowed vector, if there is one.
pub fn get_first(arr: &Vec<i32>) -> (r: Option<&i32>)
    ensures
        match r {
            Some(x) => arr@.len() > 0 && *x == arr@[0],
            None => arr@.len() == 0,
        },
{
    if arr.len() == 0 {
        None
    } else {
        Some(&arr[0])
    }
}

} // verus!
