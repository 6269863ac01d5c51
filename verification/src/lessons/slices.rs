//! Slices lesson: taking parts of strings and arrays without ownership.

use vstd::prelude::*;
use vstd::slice::slice_subrange;

verus! {

/// Index of the first space character, if any.
pub open spec fn first_space(s: Seq<char>) -> Option<int>
    decreases s.len(),
{
    if s.len() == 0 {
        None
    } else if s[0] == ' ' {
        Some(0int)
    } else {
        match first_space(s.drop_first()) {
            Some(i) => Some(i + 1),
            None => None,
        }
    }
}

/// The text up to the first space: the whole text when there is none.
pub open spec fn spec_first_word(s: Seq<char>) -> Seq<char> {
    match first_space(s) {
        Some(i) => s.take(i),
        None => s,
    }
}

/// The first position holding a space is what `first_space` finds.
proof fn lemma_first_space_at(s: Seq<char>, i: int)
    requires
        0 <= i < s.len(),
        s[i] == ' ',
        forall|k: int| 0 <= k < i ==> s[k] != ' ',
    ensures
        first_space(s) == Some(i),
    decreases s.len(),
{
    if i > 0 {
        lemma_first_space_at(s.drop_first(), i - 1);
    }
}

/// Without any space, `first_space` finds nothing.
proof fn lemma_first_space_none(s: Seq<char>)
    requires
        forall|k: int| 0 <= k < s.len() ==> s[k] != ' ',
    ensures
        first_space(s) is None,
    decreases s.len(),
{
    if s.len() > 0 {
        assert(forall|k: int|
            0 <= k < s.drop_first().len() ==> #[trigger] s.drop_first()[k] == s[k + 1]);
        lemma_first_space_none(s.drop_first());
    }
}

/// The part of the text before its first space, or all of it when it has
/// no space.
pub fn first_word(s: &str) -> (r: &str)
    ensures
        r@ == spec_first_word(s@),
{
    let n = s.unicode_len();
    let mut i: usize = 0;
    while i < n
        invariant
            n == s@.len(),
            0 <= i <= n,
            forall|k: int| 0 <= k < i ==> s@[k] != ' ',
        decreases n - i,
    {
        if s.get_char(i) == ' ' {
            proof {
                lemma_first_space_at(s@, i as int);
            }
            return s.substring_char(0, i);
        }
        i = i + 1;
    }
    proof {
        lemma_first_space_none(s@);
    }
    s
}

/// The first `n` elements, or all of them when fewer are there.
pub fn first_n<'a>(arr: &'a [i32], n: usize) -> (r: &'a [i32])
    ensures
        r@ == arr@.take(if n <= arr@.len() {
            n as int
        } else {
            arr@.len() as int
        }),
{
    let m = if n <= arr.len() {
        n
    } else {
        arr.len()
    };
    let r = slice_subrange(arr, 0, m);
    proof {
        assert(r@ =~= arr@.take(m as int));
    }
    r
}

/// The later half of the elements (the shorter half when the count is odd).
pub fn second_half<'a>(arr: &'a [i32]) -> (r: &'a [i32])
    ensures
        r@ == arr@.skip(arr@.len() as int / 2),
{
    let r = slice_subrange(arr, arr.len() / 2, arr.len());
    proof {
        assert(r@ =~= arr@.skip(arr@.len() as int / 2));
    }
    r
}

/// Overwrites the first two elements, when there are at least two.
pub fn modify_first_two(slice: &mut [i32])
    ensures
        old(slice)@.len() >= 2 ==> final(slice)@ == old(slice)@.update(0, 100).update(1, 200),
        old(slice)@.len() < 2 ==> final(slice)@ == old(slice)@,
{
    if slice.len() >= 2 {
        slice[0] = 100;
        slice[1] = 200;
    }
}

} // verus!
