//! The lesson registry: the fixed, ordered collection of descriptors,
//! built once, with unique numbers and unique slugs.

use vstd::prelude::*;

verus! {

/// A descriptor for one runnable lesson. The runnable itself lives with
/// the caller, keyed by the descriptor's position in the registry.
pub struct Lesson {
    /// Identifier used for numeric lookup; unique across the registry.
    pub number: usize,
    /// Textual identifier used for name lookup; unique across the registry.
    pub slug: String,
    /// Human-readable description, display only.
    pub title: String,
}

/// No two descriptors share a number.
pub open spec fn numbers_unique(s: Seq<Lesson>) -> bool {
    forall|i: int, j: int| 0 <= i < j < s.len() ==> s[i].number != s[j].number
}

/// No two descriptors share a slug.
pub open spec fn slugs_unique(s: Seq<Lesson>) -> bool {
    forall|i: int, j: int| 0 <= i < j < s.len() ==> s[i].slug@ != s[j].slug@
}

/// A well-formed registry: lookup by number or by slug is unambiguous.
pub open spec fn registry_wf(s: Seq<Lesson>) -> bool {
    numbers_unique(s) && slugs_unique(s)
}

/// The slug of the standard registry's entry at position `i`.
pub open spec fn std_slug(i: int) -> Seq<char> {
    if i == 0 {
        "hello_world"@
    } else if i == 1 {
        "variables"@
    } else if i == 2 {
        "types"@
    } else if i == 3 {
        "functions"@
    } else if i == 4 {
        "control_flow"@
    } else if i == 5 {
        "ownership"@
    } else if i == 6 {
        "borrowing"@
    } else if i == 7 {
        "slices"@
    } else if i == 8 {
        "structs"@
    } else if i == 9 {
        "enums_matching"@
    } else if i == 10 {
        "methods_assoc_fn"@
    } else if i == 11 {
        "generics"@
    } else if i == 12 {
        "traits"@
    } else if i == 13 {
        "lifetimes"@
    } else if i == 14 {
        "collections"@
    } else if i == 15 {
        "iterators_closures"@
    } else if i == 16 {
        "error_handling"@
    } else if i == 17 {
        "modules_crates"@
    } else {
        "macros_basics"@
    }
}

/// The title of the standard registry's entry at position `i`.
pub open spec fn std_title(i: int) -> Seq<char> {
    if i == 0 {
        "Hello, world & Project Layout"@
    } else if i == 1 {
        "Variables & Mutability"@
    } else if i == 2 {
        "Scalar & Compound Types"@
    } else if i == 3 {
        "Functions & Parameters"@
    } else if i == 4 {
        "if / loop / while / match"@
    } else if i == 5 {
        "Ownership Basics"@
    } else if i == 6 {
        "Borrowing & References"@
    } else if i == 7 {
        "String & Array Slices"@
    } else if i == 8 {
        "Structs & Update Syntax"@
    } else if i == 9 {
        "Enums & Pattern Matching"@
    } else if i == 10 {
        "Methods & Associated Fns"@
    } else if i == 11 {
        "Generics"@
    } else if i == 12 {
        "Traits & Trait Bounds"@
    } else if i == 13 {
        "Lifetimes Basics"@
    } else if i == 14 {
        "Vec / String / HashMap"@
    } else if i == 15 {
        "Iterators & Closures"@
    } else if i == 16 {
        "Result / Option / ? operator"@
    } else if i == 17 {
        "Modules / Crates / Paths"@
    } else {
        "Macros Basics"@
    }
}

/// The standard registry: nineteen lessons, numbered in order of
/// registration starting at one, with the slugs and titles above.
pub open spec fn is_standard_registry(s: Seq<Lesson>) -> bool {
    &&& s.len() == 19
    &&& forall|i: int| 0 <= i < s.len() ==> #[trigger] s[i].number == i + 1
    &&& forall|i: int| 0 <= i < s.len() ==> #[trigger] s[i].slug@ == std_slug(i)
    &&& forall|i: int| 0 <= i < s.len() ==> #[trigger] s[i].title@ == std_title(i)
}

fn mk(number: usize, slug: &str, title: &str) -> (l: Lesson)
    ensures
        l.number == number,
        l.slug@ == slug@,
        l.title@ == title@,
{
    Lesson { number, slug: slug.to_owned(), title: title.to_owned() }
}

/// Builds the full, ordered registry. Pure and deterministic: every call
/// returns the same descriptors in the same registration order.
pub fn all() -> (r: Vec<Lesson>)
    ensures
        is_standard_registry(r@),
        registry_wf(r@),
{
    let mut r: Vec<Lesson> = Vec::new();
    r.push(mk(1, "hello_world", "Hello, world & Project Layout"));
    r.push(mk(2, "variables", "Variables & Mutability"));
    r.push(mk(3, "types", "Scalar & Compound Types"));
    r.push(mk(4, "functions", "Functions & Parameters"));
    r.push(mk(5, "control_flow", "if / loop / while / match"));
    r.push(mk(6, "ownership", "Ownership Basics"));
    r.push(mk(7, "borrowing", "Borrowing & References"));
    r.push(mk(8, "slices", "String & Array Slices"));
    r.push(mk(9, "structs", "Structs & Update Syntax"));
    r.push(mk(10, "enums_matching", "Enums & Pattern Matching"));
    r.push(mk(11, "methods_assoc_fn", "Methods & Associated Fns"));
    r.push(mk(12, "generics", "Generics"));
    r.push(mk(13, "traits", "Traits & Trait Bounds"));
    r.push(mk(14, "lifetimes", "Lifetimes Basics"));
    r.push(mk(15, "collections", "Vec / String / HashMap"));
    r.push(mk(16, "iterators_closures", "Iterators & Closures"));
    r.push(mk(17, "error_handling", "Result / Option / ? operator"));
    r.push(mk(18, "modules_crates", "Modules / Crates / Paths"));
    r.push(mk(19, "macros_basics", "Macros Basics"));
    proof {
        assert(is_standard_registry(r@));
        lemma_standard_registry_wf(r@);
    }
    r
}

/// The slugs of the standard registry are pairwise distinct.
#[verifier::rlimit(100)]
proof fn lemma_std_slugs_distinct()
    ensures
        forall|i: int, j: int| 0 <= i < j < 19 ==> std_slug(i) != std_slug(j),
{
    reveal_strlit("hello_world");
    reveal_strlit("variables");
    reveal_strlit("types");
    reveal_strlit("functions");
    reveal_strlit("control_flow");
    reveal_strlit("ownership");
    reveal_strlit("borrowing");
    reveal_strlit("slices");
    reveal_strlit("structs");
    reveal_strlit("enums_matching");
    reveal_strlit("methods_assoc_fn");
    reveal_strlit("generics");
    reveal_strlit("traits");
    reveal_strlit("lifetimes");
    reveal_strlit("collections");
    reveal_strlit("iterators_closures");
    reveal_strlit("error_handling");
    reveal_strlit("modules_crates");
    reveal_strlit("macros_basics");
    assert forall|i: int, j: int| 0 <= i < j < 19 implies std_slug(i) != std_slug(j) by {
        if std_slug(i).len() == std_slug(j).len() {
            assert(std_slug(i)[0] != std_slug(j)[0] || std_slug(i)[1] != std_slug(j)[1]);
        }
    }
}

/// Uniqueness: in any registry with the standard contents, all pairs of
/// distinct descriptors differ both in `number` and in `slug`.
pub proof fn lemma_standard_registry_wf(s: Seq<Lesson>)
    requires
        is_standard_registry(s),
    ensures
        registry_wf(s),
{
    lemma_std_slugs_distinct();
    assert forall|i: int, j: int| 0 <= i < j < s.len() implies s[i].slug@ != s[j].slug@ by {
        assert(std_slug(i) != std_slug(j));
    }
}

} // verus!
