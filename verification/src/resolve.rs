//! Selector resolution: a selector string picks a descriptor by number
//! first, then by slug, searching the registry in order.

use vstd::prelude::*;
use crate::registry::{Lesson, registry_wf, is_standard_registry, std_slug};
use crate::text::{
    spec_parse_usize,
    parse_usize,
    str_eq,
    spec_dec,
    valid_numeral,
    is_digit,
    lemma_parse_dec_roundtrip,
};

verus! {

/// The sole error of the core: no descriptor matched the selector.
/// It carries the offending selector exactly as it was supplied.
#[derive(Debug)]
pub struct SelectionNotFound {
    pub selector: String,
}

impl SelectionNotFound {
    /// The user-facing description of the failure.
    pub fn message(&self) -> (r: String)
        ensures
            r@ == "Lesson '"@ + self.selector@ + "' not found"@,
    {
        let mut r = "Lesson '".to_owned();
        r.append(self.selector.as_str());
        r.append("' not found");
        r
    }
}

/// Index of the first descriptor whose number equals `n`.
pub open spec fn find_by_number(s: Seq<Lesson>, n: usize) -> Option<int>
    decreases s.len(),
{
    if s.len() == 0 {
        None
    } else if s[0].number == n {
        Some(0int)
    } else {
        match find_by_number(s.drop_first(), n) {
            Some(i) => Some(i + 1),
            None => None,
        }
    }
}

/// Index of the first descriptor whose slug equals `sel` exactly.
pub open spec fn find_by_slug(s: Seq<Lesson>, sel: Seq<char>) -> Option<int>
    decreases s.len(),
{
    if s.len() == 0 {
        None
    } else if s[0].slug@ == sel {
        Some(0int)
    } else {
        match find_by_slug(s.drop_first(), sel) {
            Some(i) => Some(i + 1),
            None => None,
        }
    }
}

/// The resolution rule. A selector that parses as a number and matches
/// some descriptor's number resolves numerically, even when the selector
/// also equals some descriptor's slug; otherwise resolution falls back
/// to the first descriptor with that exact slug.
pub open spec fn spec_resolve(s: Seq<Lesson>, sel: Seq<char>) -> Option<int> {
    match spec_parse_usize(sel) {
        Some(n) => match find_by_number(s, n) {
            Some(i) => Some(i),
            None => find_by_slug(s, sel),
        },
        None => find_by_slug(s, sel),
    }
}

/// What a `find_by_number` result means: the match, if any, is in range,
/// matches, and is the first to match; otherwise nothing matches.
pub proof fn lemma_find_by_number_props(s: Seq<Lesson>, n: usize)
    ensures
        match find_by_number(s, n) {
            Some(i) => 0 <= i < s.len() && s[i].number == n && forall|k: int|
                0 <= k < i ==> s[k].number != n,
            None => forall|k: int| 0 <= k < s.len() ==> s[k].number != n,
        },
    decreases s.len(),
{
    if s.len() > 0 && s[0].number != n {
        let rest = s.drop_first();
        lemma_find_by_number_props(rest, n);
        if find_by_number(rest, n) is Some {
            let i = find_by_number(rest, n)->Some_0;
            assert(s[i + 1] == rest[i]);
            assert forall|k: int| 0 <= k < i + 1 implies s[k].number != n by {
                if k > 0 {
                    assert(s[k] == rest[k - 1]);
                }
            }
        } else {
            assert forall|k: int| 0 <= k < s.len() implies s[k].number != n by {
                if k > 0 {
                    assert(s[k] == rest[k - 1]);
                }
            }
        }
    }
}

/// Conversely, the first position to match is the result of `find_by_number`.
pub proof fn lemma_find_by_number_first(s: Seq<Lesson>, n: usize, i: int)
    requires
        0 <= i < s.len(),
        s[i].number == n,
        forall|k: int| 0 <= k < i ==> s[k].number != n,
    ensures
        find_by_number(s, n) == Some(i),
    decreases s.len(),
{
    if i > 0 {
        lemma_find_by_number_first(s.drop_first(), n, i - 1);
    }
}

/// What a `find_by_slug` result means, as for numbers.
pub proof fn lemma_find_by_slug_props(s: Seq<Lesson>, sel: Seq<char>)
    ensures
        match find_by_slug(s, sel) {
            Some(i) => 0 <= i < s.len() && s[i].slug@ == sel && forall|k: int|
                0 <= k < i ==> s[k].slug@ != sel,
            None => forall|k: int| 0 <= k < s.len() ==> s[k].slug@ != sel,
        },
    decreases s.len(),
{
    if s.len() > 0 && s[0].slug@ != sel {
        let rest = s.drop_first();
        lemma_find_by_slug_props(rest, sel);
        if find_by_slug(rest, sel) is Some {
            let i = find_by_slug(rest, sel)->Some_0;
            assert(s[i + 1] == rest[i]);
            assert forall|k: int| 0 <= k < i + 1 implies s[k].slug@ != sel by {
                if k > 0 {
                    assert(s[k] == rest[k - 1]);
                }
            }
        } else {
            assert forall|k: int| 0 <= k < s.len() implies s[k].slug@ != sel by {
                if k > 0 {
                    assert(s[k] == rest[k - 1]);
                }
            }
        }
    }
}

/// Conversely, the first position with the slug is the result of `find_by_slug`.
pub proof fn lemma_find_by_slug_first(s: Seq<Lesson>, sel: Seq<char>, i: int)
    requires
        0 <= i < s.len(),
        s[i].slug@ == sel,
        forall|k: int| 0 <= k < i ==> s[k].slug@ != sel,
    ensures
        find_by_slug(s, sel) == Some(i),
    decreases s.len(),
{
    if i > 0 {
        lemma_find_by_slug_first(s.drop_first(), sel, i - 1);
    }
}

/// Linear search for the first descriptor with the given number.
pub fn find_index_by_number(reg: &Vec<Lesson>, n: usize) -> (r: Option<usize>)
    ensures
        match r {
            Some(i) => find_by_number(reg@, n) == Some(i as int),
            None => find_by_number(reg@, n) is None,
        },
{
    let mut i: usize = 0;
    while i < reg.len()
        invariant
            0 <= i <= reg@.len(),
            forall|k: int| 0 <= k < i ==> reg@[k].number != n,
        decreases reg@.len() - i,
    {
        if reg[i].number == n {
            proof {
                lemma_find_by_number_first(reg@, n, i as int);
            }
            return Some(i);
        }
        i = i + 1;
    }
    proof {
        lemma_find_by_number_props(reg@, n);
        if find_by_number(reg@, n) is Some {
            let w = find_by_number(reg@, n)->Some_0;
            assert(reg@[w].number != n);
        }
    }
    None
}

/// Linear search for the first descriptor with the given slug.
pub fn find_index_by_slug(reg: &Vec<Lesson>, sel: &str) -> (r: Option<usize>)
    ensures
        match r {
            Some(i) => find_by_slug(reg@, sel@) == Some(i as int),
            None => find_by_slug(reg@, sel@) is None,
        },
{
    let mut i: usize = 0;
    while i < reg.len()
        invariant
            0 <= i <= reg@.len(),
            forall|k: int| 0 <= k < i ==> reg@[k].slug@ != sel@,
        decreases reg@.len() - i,
    {
        if str_eq(reg[i].slug.as_str(), sel) {
            proof {
                lemma_find_by_slug_first(reg@, sel@, i as int);
            }
            return Some(i);
        }
        i = i + 1;
    }
    proof {
        lemma_find_by_slug_props(reg@, sel@);
        if find_by_slug(reg@, sel@) is Some {
            let w = find_by_slug(reg@, sel@)->Some_0;
            assert(reg@[w].slug@ != sel@);
        }
    }
    None
}

/// Resolves a selector to the position of the matching descriptor, or
/// reports the selector as not found. Succeeds exactly when the selector
/// names a registered number or slug under the resolution rule.
pub fn resolve(reg: &Vec<Lesson>, sel: &str) -> (r: Result<usize, SelectionNotFound>)
    ensures
        match r {
            Ok(i) => spec_resolve(reg@, sel@) == Some(i as int) && i < reg@.len(),
            Err(e) => spec_resolve(reg@, sel@) is None && e.selector@ == sel@,
        },
{
    if let Some(n) = parse_usize(sel) {
        if let Some(i) = find_index_by_number(reg, n) {
            proof {
                lemma_find_by_number_props(reg@, n);
            }
            return Ok(i);
        }
    }
    if let Some(i) = find_index_by_slug(reg, sel) {
        proof {
            lemma_find_by_slug_props(reg@, sel@);
        }
        return Ok(i);
    }
    Err(SelectionNotFound { selector: sel.to_owned() })
}

/// Numeric-lookup correctness: in a well-formed registry, the decimal
/// string of any descriptor's number resolves to that very descriptor.
pub proof fn lemma_numeric_lookup(s: Seq<Lesson>, i: int)
    requires
        registry_wf(s),
        0 <= i < s.len(),
    ensures
        spec_resolve(s, spec_dec(s[i].number as nat)) == Some(i),
{
    lemma_parse_dec_roundtrip(s[i].number);
    lemma_find_by_number_first(s, s[i].number, i);
}

/// Slug-lookup correctness: in a well-formed registry, a descriptor's slug
/// resolves to that descriptor, provided the slug does not double as a
/// decimal numeral matching some registered number (numeric precedence
/// would then win; see `lemma_numeric_precedence`).
pub proof fn lemma_slug_lookup(s: Seq<Lesson>, i: int)
    requires
        registry_wf(s),
        0 <= i < s.len(),
        match spec_parse_usize(s[i].slug@) {
            Some(n) => find_by_number(s, n) is None,
            None => true,
        },
    ensures
        spec_resolve(s, s[i].slug@) == Some(i),
{
    lemma_find_by_slug_first(s, s[i].slug@, i);
}

/// In the standard registry every slug begins with a letter, so slug
/// lookup is unconditional there: each slug resolves to its descriptor.
pub proof fn lemma_standard_slug_lookup(s: Seq<Lesson>, i: int)
    requires
        is_standard_registry(s),
        0 <= i < s.len(),
    ensures
        spec_resolve(s, s[i].slug@) == Some(i),
{
    crate::registry::lemma_standard_registry_wf(s);
    reveal_strlit("hello_world");
    reveal_strlit("variables");
    reveal_strlit("types");
    reveal_strlit("functions");
    reveal_strlit("control_flow");
    reveal_strlit("ownership");
    reveal_strlit("borrowing");
    reveal_strlit("slices");
    reveal_strlit("structs");
    reveal_strlit("enums_matching");
    reveal_strlit("methods_assoc_fn");
    reveal_strlit("generics");
    reveal_strlit("traits");
    reveal_strlit("lifetimes");
    reveal_strlit("collections");
    reveal_strlit("iterators_closures");
    reveal_strlit("error_handling");
    reveal_strlit("modules_crates");
    reveal_strlit("macros_basics");
    assert(s[i].slug@ == std_slug(i));
    assert(!is_digit(std_slug(i)[0]));
    assert(!valid_numeral(s[i].slug@));
    lemma_slug_lookup(s, i);
}

/// Numeric precedence: when the selector parses as a number that is
/// registered, resolution follows the numeric match, even if the selector
/// is also the slug of some (other) descriptor.
pub proof fn lemma_numeric_precedence(s: Seq<Lesson>, sel: Seq<char>, i: int, j: int)
    requires
        spec_parse_usize(sel) is Some,
        find_by_number(s, spec_parse_usize(sel)->Some_0) == Some(i),
        0 <= j < s.len(),
        s[j].slug@ == sel,
    ensures
        spec_resolve(s, sel) == Some(i),
        j != i ==> spec_resolve(s, sel) != Some(j),
{
}

/// Not-found: a selector that matches no registered number and no
/// registered slug does not resolve, and `resolve` then reports exactly
/// that selector as not found.
pub proof fn lemma_not_found(s: Seq<Lesson>, sel: Seq<char>)
    requires
        match spec_parse_usize(sel) {
            Some(n) => forall|k: int| 0 <= k < s.len() ==> s[k].number != n,
            None => true,
        },
        forall|k: int| 0 <= k < s.len() ==> s[k].slug@ != sel,
    ensures
        spec_resolve(s, sel) is None,
{
    if spec_parse_usize(sel) is Some {
        lemma_find_by_number_props(s, spec_parse_usize(sel)->Some_0);
    }
    lemma_find_by_slug_props(s, sel);
}

} // verus!
