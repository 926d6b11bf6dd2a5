//! The synthesis behind the `Qeap` derive: a type is kept, under its own name, by
//! the place that an expression names.

use vstd::prelude::*;
use crate::diagnostic::{viewed, Diagnostic, DiagnosticView};
use crate::tokens::{lexed_from, tokens_of};
use proc_macro2::TokenStream;

verus! {

/// The impl that keeps the type `ident` in the place that the expression `with`
/// evaluates to. Loading and saving each prepare the place first.
pub open spec fn derived_impl(ident: Seq<char>, with: Seq<char>) -> Seq<char> {
    "impl ::qeap::Qeap for "@ + ident
        + " { fn load() -> ::qeap::QeapResult<Self> where Self: Sized { let p = "@ + with
        + "; ::qeap::Qeaper::init(&p)?; ::qeap::Qeaper::load(&p, \""@ + ident
        + "\") } fn save(&self) -> ::qeap::QeapResult<()> { let p = "@ + with
        + "; ::qeap::Qeaper::init(&p)?; ::qeap::Qeaper::save(&p, self, \""@ + ident
        + "\") } }"@
}

/// The text that the derive yields for a type and the optional expression of its
/// `with` attribute; without the expression the type is refused.
pub open spec fn derivation(ident: Seq<char>, with: Option<Seq<char>>) -> Result<
    Seq<char>,
    DiagnosticView,
> {
    match with {
        Some(expression) => Ok(derived_impl(ident, expression)),
        None => Err(DiagnosticView::MissingWith),
    }
}

/// Writes the impl of `Qeap` for the type `ident`, which is kept under its own
/// name in the place that the expression `with` evaluates to. A type without that
/// expression is refused.
pub fn expand_derive(ident: &str, with: Option<&str>) -> (r: Result<String, Diagnostic>)
    ensures
        viewed(r) == derivation(
            ident@,
            match with {
                Some(expression) => Some(expression@),
                None => None,
            },
        ),
{
    let place = match with {
        Some(expression) => expression,
        None => { return Err(Diagnostic::MissingWith); },
    };
    let mut out = String::from_str("impl ::qeap::Qeap for ");
    out.append(ident);
    out.append(" { fn load() -> ::qeap::QeapResult<Self> where Self: Sized { let p = ");
    out.append(place);
    out.append("; ::qeap::Qeaper::init(&p)?; ::qeap::Qeaper::load(&p, \"");
    out.append(ident);
    out.append("\") } fn save(&self) -> ::qeap::QeapResult<()> { let p = ");
    out.append(place);
    out.append("; ::qeap::Qeaper::init(&p)?; ::qeap::Qeaper::save(&p, self, \"");
    out.append(ident);
    out.append("\") } }");
    Ok(out)
}

/// The impl of `Qeap` for the type `ident` as tokens: the text that
/// [`expand_derive`] yields, lexed. A refusal is returned as it is, and a type or an
/// expression whose text the lexer does not accept is refused as malformed.
pub fn derive_qeap(ident: &str, with: Option<&str>) -> (r: Result<TokenStream, Diagnostic>)
    ensures
        lexed_from(
            derivation(
                ident@,
                match with {
                    Some(expression) => Some(expression@),
                    None => None,
                },
            ),
            r,
        ),
{
    tokens_of(expand_derive(ident, with))
}

} // verus!
