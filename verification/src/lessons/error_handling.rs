//! Error-handling lesson: a custom error type and a fallible computation.

use vstd::prelude::*;

verus! {

/// The lesson's own error type, one variant per failure kind, each
/// carrying its detail text.
#[derive(Debug)]
pub enum AppError {
    FileNotFound(String),
    ParseError(String),
    InvalidInput(String),
}

impl AppError {
    /// The user-facing description of the error.
    pub fn message(&self) -> (r: String)
        ensures
            r@ == match self {
                AppError::FileNotFound(path) => "File not found: "@ + path@,
                AppError::ParseError(msg) => "Parse error: "@ + msg@,
                AppError::InvalidInput(msg) => "Invalid input: "@ + msg@,
            },
{
        match self {
            AppError::FileNotFound(path) => {
                let mut r = "File not found: ".to_owned();
                r.append(path.as_str());
                r
            },
            AppError::ParseError(msg) => {
                let mut r = "Parse error: ".to_owned();
                r.append(msg.as_str());
                r
            },
            AppError::InvalidInput(msg) => {
                let mut r = "Invalid input: ".to_owned();
                r.append(msg.as_str());
                r
            },
        }
    }
}

/// Divides `a` by `b`, rejecting a zero divisor with `InvalidInput`; the
/// division itself can then not fail.
pub fn divide_and_validate(a: i32, b: i32) -> (r: Result<i32, AppError>)
    requires
        a >= 0,
        b >= 0,
    ensures
        match r {
            Ok(v) => b != 0 && v == a as int / b as int,
            Err(e) => b == 0 && (e matches AppError::InvalidInput(m) && m@
                == "Cannot divide by zero"@),
        },
{
    if b == 0 {
        return Err(AppError::InvalidInput("Cannot divide by zero".to_owned()));
    }
    Ok(a / b)
}

} // verus!
