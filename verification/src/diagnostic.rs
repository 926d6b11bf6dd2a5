//! What the analysis reports when it refuses a declaration.

use vstd::prelude::*;

verus! {

/// A refusal raised while a declaration is analysed, before anything is synthesized.
#[derive(Clone, Debug, PartialEq, Eq)]
pub enum Diagnostic {
    /// The mode token is none of the recognized ones; holds the token in lower case.
    UnknownMode(String),
    /// A parameter is bound by something other than a plain name; holds the pattern.
    UnsupportedPattern(String),
    /// A result-like return type does not name exactly two types.
    IncompleteResult,
    /// The derive was given no `with = <expr>`.
    MissingWith,
    /// The text of the declaration cannot be read as tokens.
    MalformedTokens,
}

/// A [`Diagnostic`] with the characters of its text.
pub enum DiagnosticView {
    UnknownMode(Seq<char>),
    UnsupportedPattern(Seq<char>),
    IncompleteResult,
    MissingWith,
    MalformedTokens,
}

impl View for Diagnostic {
    type V = DiagnosticView;

    open spec fn view(&self) -> DiagnosticView {
        match self {
            Diagnostic::UnknownMode(token) => DiagnosticView::UnknownMode(token@),
            Diagnostic::UnsupportedPattern(pattern) => DiagnosticView::UnsupportedPattern(
                pattern@,
            ),
            Diagnostic::IncompleteResult => DiagnosticView::IncompleteResult,
            Diagnostic::MissingWith => DiagnosticView::MissingWith,
            Diagnostic::MalformedTokens => DiagnosticView::MalformedTokens,
        }
    }
}

impl DiagnosticView {
    /// The message shown to the author of the refused declaration.
    pub open spec fn message(self) -> Seq<char> {
        match self {
            DiagnosticView::UnknownMode(token) =>
                "Expected 'flatten', 'flatten_erased', 'absorb', or 'expect', got '"@ + token
                    + "'"@,
            DiagnosticView::UnsupportedPattern(pattern) =>
                "Only ident pattern function arguments are supported, i.e. `field: Type`: "@
                    + pattern,
            DiagnosticView::IncompleteResult =>
                "If a Result type is specified, both Ok and Err types (T and E) must be included in the signature"@,
            DiagnosticView::MissingWith => "with = <expr> is required"@,
            DiagnosticView::MalformedTokens =>
                "The text of the declaration cannot be read as tokens"@,
        }
    }
}

/// A result of the analysis with its error seen through its view.
pub open spec fn outcome<T>(r: Result<T, Diagnostic>) -> Result<T, DiagnosticView> {
    match r {
        Ok(value) => Ok(value),
        Err(diagnostic) => Err(diagnostic@),
    }
}

/// A result of the analysis, seen through the views of its value and of its error.
pub open spec fn viewed<T: View>(r: Result<T, Diagnostic>) -> Result<T::V, DiagnosticView> {
    match r {
        Ok(value) => Ok(value@),
        Err(diagnostic) => Err(diagnostic@),
    }
}

impl Diagnostic {
    /// The message shown to the author of the refused declaration.
    pub fn message(&self) -> (r: String)
        ensures
            r@ == self@.message(),
    {
        match self {
            Diagnostic::UnknownMode(token) => {
                let mut out = String::from_str(
                    "Expected 'flatten', 'flatten_erased', 'absorb', or 'expect', got '",
                );
                out.append(token.as_str());
                out.append("'");
                out
            },
            Diagnostic::UnsupportedPattern(pattern) => {
                let mut out = String::from_str(
                    "Only ident pattern function arguments are supported, i.e. `field: Type`: ",
                );
                out.append(pattern.as_str());
                out
            },
            Diagnostic::IncompleteResult => String::from_str(
                "If a Result type is specified, both Ok and Err types (T and E) must be included in the signature",
            ),
            Diagnostic::MissingWith => String::from_str("with = <expr> is required"),
            Diagnostic::MalformedTokens => String::from_str(
                "The text of the declaration cannot be read as tokens",
            ),
        }
    }
}

} // verus!
