//! The dispatcher's decision logic: from the command-line arguments to
//! the one action the process takes, and the exit status each action ends
//! with. Performing the action (printing, invoking a lesson) is the
//! caller's part.

use vstd::prelude::*;
use crate::registry::Lesson;
use crate::resolve::{SelectionNotFound, resolve, spec_resolve};
use crate::text::str_eq;

verus! {

/// What the process does for one invocation: exactly one of showing the
/// usage text, listing the registry, running one resolved lesson, or
/// rejecting an unrecognized selector.
pub enum Action {
    /// No selector token was supplied: show usage and end normally.
    ShowHelp,
    /// The token was the list command: render the registry table.
    List,
    /// The token resolved: run the lesson at this registry position.
    Run(usize),
    /// The token matched nothing: report it and end with failure.
    Reject(SelectionNotFound),
}

/// Decides the action for the given arguments: no token shows the help,
/// the literal list command lists, and any other token is resolved as a
/// selector, to a run of the match or to a rejection naming the token.
pub fn dispatch(reg: &Vec<Lesson>, args: &Vec<String>) -> (a: Action)
    ensures
        args@.len() == 0 <==> a is ShowHelp,
        args@.len() > 0 && args@[0]@ == "list"@ <==> a is List,
        args@.len() > 0 && args@[0]@ != "list"@ ==> match a {
            Action::Run(i) => spec_resolve(reg@, args@[0]@) == Some(i as int) && i < reg@.len(),
            Action::Reject(e) => spec_resolve(reg@, args@[0]@) is None && e.selector@ == args@[0]@,
            _ => false,
        },
{
    if args.len() == 0 {
        return Action::ShowHelp;
    }
    let sel: &str = args[0].as_str();
    if str_eq(sel, "list") {
        return Action::List;
    }
    match resolve(reg, sel) {
        Ok(i) => Action::Run(i),
        Err(e) => Action::Reject(e),
    }
}

/// The process exit status of an action: failure only for a rejected
/// selector, success for everything else.
pub fn exit_code(a: &Action) -> (c: i32)
    ensures
        c == if a is Reject {
            1int
        } else {
            0int
        },
{
    match a {
        Action::Reject(_) => 1,
        _ => 0,
    }
}

/// The usage text, line by line.
pub open spec fn spec_usage() -> Seq<Seq<char>> {
    seq![
        "Usage:"@,
        "  cargo run -- list"@,
        "  cargo run -- <lesson>"@,
        ""@,
        "Examples:"@,
        "  cargo run -- list           # list all lessons"@,
        "  cargo run -- hello_world    # run the lesson with this slug"@,
        "  cargo run -- 1              # run the lesson with this number"@,
    ]
}

/// Builds the usage text that accompanies the help action and every
/// rejection.
pub fn usage_lines() -> (r: Vec<String>)
    ensures
        r@.len() == spec_usage().len(),
        forall|i: int| 0 <= i < r@.len() ==> #[trigger] r@[i]@ == spec_usage()[i],
{
    let mut r: Vec<String> = Vec::new();
    r.push("Usage:".to_owned());
    r.push("  cargo run -- list".to_owned());
    r.push("  cargo run -- <lesson>".to_owned());
    r.push("".to_owned());
    r.push("Examples:".to_owned());
    r.push("  cargo run -- list           # list all lessons".to_owned());
    r.push("  cargo run -- hello_world    # run the lesson with this slug".to_owned());
    r.push("  cargo run -- 1              # run the lesson with this number".to_owned());
    r
}

} // verus!
