//! The propagation mode of a scoped function, and how its token is read.

use vstd::prelude::*;
use crate::diagnostic::{outcome, Diagnostic, DiagnosticView};
use crate::text::{lowercase, same_text, to_lowercase};

verus! {

/// How failures of loading and saving, and the body's own result, reach the caller.
#[derive(Clone, Copy, Debug, PartialEq, Eq, Structural)]
pub enum Mode {
    /// The body's result is wrapped in a result whose error is the persistence error.
    Nested,
    /// Persistence errors and the body's own error share one flattened error.
    Flatten,
    /// As `Flatten`, with the body's error boxed into an opaque error.
    FlattenErased,
    /// Persistence errors are converted into the body's own error type.
    Absorb,
    /// Persistence errors abort the process.
    Expect,
}

/// The mode that a lower-case token names; an unknown token is refused by name.
pub open spec fn recognized(token: Seq<char>) -> Result<Mode, DiagnosticView> {
    if token == "flatten"@ {
        Ok(Mode::Flatten)
    } else if token == "flatten_erased"@ {
        Ok(Mode::FlattenErased)
    } else if token == "absorb"@ {
        Ok(Mode::Absorb)
    } else if token == "expect"@ {
        Ok(Mode::Expect)
    } else {
        Err(DiagnosticView::UnknownMode(token))
    }
}

/// The mode that an optional token selects: `Nested` without a token, otherwise the
/// mode that the token names once it is in lower case.
pub open spec fn selected(token: Option<Seq<char>>) -> Result<Mode, DiagnosticView> {
    match token {
        None => Ok(Mode::Nested),
        Some(t) => recognized(lowercase(t)),
    }
}

impl Mode {
    /// Reads a token that is already in lower case.
    pub fn from_lowercase(token: &str) -> (r: Result<Mode, Diagnostic>)
        ensures
            outcome(r) == recognized(token@),
    {
        if same_text(token, "flatten") {
            Ok(Mode::Flatten)
        } else if same_text(token, "flatten_erased") {
            Ok(Mode::FlattenErased)
        } else if same_text(token, "absorb") {
            Ok(Mode::Absorb)
        } else if same_text(token, "expect") {
            Ok(Mode::Expect)
        } else {
            Err(Diagnostic::UnknownMode(token.to_owned()))
        }
    }

    /// Selects the mode for an optional token. No token selects `Nested`; a token is
    /// compared in lower case, and an unknown one is refused.
    pub fn parse(token: Option<&str>) -> (r: Result<Mode, Diagnostic>)
        ensures
            outcome(r) == selected(
                match token {
                    Some(t) => Some(t@),
                    None => None,
                },
            ),
    {
        match token {
            None => Ok(Mode::Nested),
            Some(t) => {
                let lower = to_lowercase(t);
                Mode::from_lowercase(lower.as_str())
            },
        }
    }
}

} // verus!
