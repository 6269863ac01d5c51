//! Types lesson: the lesson's computed demonstration values, rendered as
//! lines; the caller prints them together with its own narration.

use vstd::prelude::*;
use crate::text::{spec_dec, usize_to_string};

verus! {

/// The lines the types lesson computes: a scalar, a larger scalar, the
/// first and last elements of a five-element collection, and its length.
pub open spec fn types_run_lines() -> Seq<Seq<char>> {
    seq![
        "x = "@ + spec_dec(42),
        "y = "@ + spec_dec(100000),
        "first = "@ + spec_dec(1),
        "last = "@ + spec_dec(5),
        "len = "@ + spec_dec(5),
    ]
}

fn labeled(label: &str, n: usize) -> (r: String)
    ensures
        r@ == label@ + spec_dec(n as nat),
{
    let mut r = label.to_owned();
    r.append(usize_to_string(n).as_str());
    r
}

/// Runs the lesson's computations and returns their rendered lines, in
/// order: exactly the lines of `types_run_lines`.
pub fn run() -> (r: Vec<String>)
    ensures
        r@.len() == types_run_lines().len(),
        forall|i: int| 0 <= i < r@.len() ==> #[trigger] r@[i]@ == types_run_lines()[i],
{
    let x: usize = 42;
    let y: usize = 100_000;
    let mut v: Vec<usize> = Vec::new();
    v.push(1);
    v.push(2);
    v.push(3);
    v.push(4);
    v.push(5);
    let first = v[0];
    let last = v[4];
    let len = v.len();
    let mut r: Vec<String> = Vec::new();
    r.push(labeled("x = ", x));
    r.push(labeled("y = ", y));
    r.push(labeled("first = ", first));
    r.push(labeled("last = ", last));
    r.push(labeled("len = ", len));
    r
}

} // verus!
