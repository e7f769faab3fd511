//! Why a template was rejected.

use vstd::prelude::*;

verus! {

/// A malformed template. Compilation stops at the first error; there is no
/// partial template.
#[derive(Clone, Copy, Debug, PartialEq, Eq, Structural)]
pub enum CompileError {
    /// The text ended after a `%`, inside a parenthesized argument, or inside
    /// a `{...}` body.
    UnexpectedEnd,
    /// A code that takes an argument is not followed by `(`.
    MissingArgument,
    /// A code that takes a body is not followed by `{`.
    MissingBody,
    /// The character after `%` is no known code.
    UnknownSpecifier(char),
    /// A color specifier is neither `#RRGGBB` nor a known color name.
    InvalidColor,
}

/// A word of the configuration names none of the values that it may name.
#[derive(Clone, Copy, Debug, PartialEq, Eq, Structural)]
pub struct InvalidWord;

impl CompileError {
    /// A short description of the error.
    pub fn message(&self) -> (s: String)
        ensures
            s@ == match *self {
                CompileError::UnexpectedEnd => "Unexpected end."@,
                CompileError::MissingArgument => "Missing argument."@,
                CompileError::MissingBody => "Missing the body."@,
                CompileError::UnknownSpecifier(_) => "Invalid specifier."@,
                CompileError::InvalidColor => "Invalid color."@,
            },
    {
        match self {
            CompileError::UnexpectedEnd => "Unexpected end.".to_owned(),
            CompileError::MissingArgument => "Missing argument.".to_owned(),
            CompileError::MissingBody => "Missing the body.".to_owned(),
            CompileError::UnknownSpecifier(_) => "Invalid specifier.".to_owned(),
            CompileError::InvalidColor => "Invalid color.".to_owned(),
        }
    }
}

} // verus!
