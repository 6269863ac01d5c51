//! Rendering the registry as a table: one line per descriptor, in
//! registration order, with the number zero-padded to at least two digits
//! and the slug left-justified in a fixed minimum field width.

use vstd::prelude::*;
use crate::registry::Lesson;
use crate::text::{spec_dec, usize_to_string};

verus! {

/// The minimum field width the slug column is padded to.
pub const SLUG_WIDTH: usize = 24;

/// `n` space characters (none for a negative count).
pub open spec fn spaces(n: int) -> Seq<char> {
    Seq::new(if n < 0 { 0nat } else { n as nat }, |i: int| ' ')
}

/// A numeral padded with leading zeros to at least two digits.
pub open spec fn zero_pad2(s: Seq<char>) -> Seq<char> {
    if s.len() >= 2 {
        s
    } else {
        seq!['0'] + s
    }
}

/// Text left-justified in a field of at least `w` characters.
pub open spec fn pad_right(s: Seq<char>, w: int) -> Seq<char> {
    s + spaces(w - s.len())
}

/// One table line: padded number, two spaces, left-justified slug,
/// one space, title.
pub open spec fn spec_line(l: Lesson) -> Seq<char> {
    zero_pad2(spec_dec(l.number as nat)) + "  "@ + pad_right(l.slug@, SLUG_WIDTH as int) + " "@
        + l.title@
}

/// The whole table: one line per descriptor, in registry order.
pub open spec fn spec_lines(s: Seq<Lesson>) -> Seq<Seq<char>> {
    Seq::new(s.len(), |i: int| spec_line(s[i]))
}

/// Renders one descriptor's table line.
pub fn render_line(l: &Lesson) -> (r: String)
    ensures
        r@ == spec_line(*l),
{
    proof {
        reveal_strlit(" ");
        reveal_strlit("0");
    }
    let num = usize_to_string(l.number);
    let mut line = String::new();
    if num.as_str().unicode_len() < 2 {
        line.append("0");
    }
    line.append(num.as_str());
    line.append("  ");
    line.append(l.slug.as_str());
    let slug_len = l.slug.as_str().unicode_len();
    let mut k = slug_len;
    while k < SLUG_WIDTH
        invariant
            slug_len == l.slug@.len(),
            slug_len <= k,
            k <= SLUG_WIDTH || k == slug_len,
            line@ == zero_pad2(spec_dec(l.number as nat)) + "  "@ + l.slug@ + spaces(
                k as int - slug_len as int,
            ),
        decreases SLUG_WIDTH - k,
    {
        line.append(" ");
        proof {
            reveal_strlit(" ");
            assert(" "@ =~= seq![' ']);
            assert(spaces(k as int - slug_len as int) + " "@ =~= spaces(
                k as int + 1 - slug_len as int,
            ));
        }
        k = k + 1;
    }
    proof {
        assert(line@ =~= zero_pad2(spec_dec(l.number as nat)) + "  "@ + pad_right(
            l.slug@,
            SLUG_WIDTH as int,
        ));
    }
    line.append(" ");
    line.append(l.title.as_str());
    proof {
        assert(line@ =~= spec_line(*l));
    }
    line
}

/// Renders the full registry, line by line, in registration order.
pub fn list_lines(reg: &Vec<Lesson>) -> (r: Vec<String>)
    ensures
        r@.len() == reg@.len(),
        forall|i: int| 0 <= i < r@.len() ==> #[trigger] r@[i]@ == spec_lines(reg@)[i],
{
    let mut r: Vec<String> = Vec::new();
    let mut i: usize = 0;
    while i < reg.len()
        invariant
            0 <= i <= reg@.len(),
            r@.len() == i,
            forall|k: int| 0 <= k < i ==> #[trigger] r@[k]@ == spec_lines(reg@)[k],
        decreases reg@.len() - i,
    {
        r.push(render_line(&reg[i]));
        i = i + 1;
    }
    r
}

/// List stability: the rendered table is a function of the registry alone,
/// so two renderings of the same registry are identical, line for line.
pub proof fn lemma_list_stability(s: Seq<Lesson>, out1: Seq<Seq<char>>, out2: Seq<Seq<char>>)
    requires
        out1 == spec_lines(s),
        out2 == spec_lines(s),
    ensures
        out1 == out2,
        out1.len() == s.len(),
{
}

} // verus!
