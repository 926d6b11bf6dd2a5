//! From synthesized text to the tokens that a macro hands back.

use vstd::prelude::*;
use std::str::FromStr;
use proc_macro2::{LexError, TokenStream};
use crate::diagnostic::{Diagnostic, DiagnosticView};

verus! {

#[verifier::external_type_specification]
#[verifier::external_body]
pub struct ExTokenStream(proc_macro2::TokenStream);

#[verifier::external_type_specification]
#[verifier::external_body]
pub struct ExLexError(proc_macro2::LexError);

/// Lexes text with `TokenStream::from_str` of `proc_macro2`, which returns the tokens
/// or a `LexError` and does not panic. Inside a macro expansion the compiler's lexer
/// does the work, elsewhere the crate's own, so nothing is stated of the result.
#[verifier::external_body]
fn lex(text: &str) -> Result<TokenStream, LexError> {
    TokenStream::from_str(text)
}

/// What lexing may make of a text that was synthesized or refused: a refusal stays
/// the refusal that it is, and a text becomes tokens unless the lexer refuses it as
/// malformed.
pub open spec fn lexed_from(
    text: Result<Seq<char>, DiagnosticView>,
    r: Result<TokenStream, Diagnostic>,
) -> bool {
    match text {
        Err(diagnostic) => r matches Err(refused) && refused@ == diagnostic,
        Ok(_) => match r {
            Ok(_) => true,
            Err(refused) => refused@ == DiagnosticView::MalformedTokens,
        },
    }
}

/// Turns synthesized text into tokens, and hands a refusal on as it is. A text that
/// the lexer does not accept is refused as malformed.
pub fn tokens_of(text: Result<String, Diagnostic>) -> (r: Result<TokenStream, Diagnostic>)
    ensures
        lexed_from(crate::diagnostic::viewed(text), r),
{
    match text {
        Ok(text) => match lex(text.as_str()) {
            Ok(tokens) => Ok(tokens),
            Err(_) => Err(Diagnostic::MalformedTokens),
        },
        Err(diagnostic) => Err(diagnostic),
    }
}

} // verus!
