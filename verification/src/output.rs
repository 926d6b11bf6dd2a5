//! The return type of the synthesized function, derived from the declared one and
//! the mode.

use vstd::prelude::*;
use crate::diagnostic::{viewed, Diagnostic, DiagnosticView};
use crate::mode::Mode;
use crate::signature::{DeclaredReturn, GenericArgument, PathArguments, PathSegment, TypeExpr, TypeShape};
use crate::text::{contains, occurs_in};

verus! {

/// Whether a type is named like a result: a path whose last segment holds `Result`
/// in its name.
pub open spec fn result_like(ty: TypeExpr) -> bool {
    ty.shape matches TypeShape::Path { last } && occurs_in("Result"@, last.ident@)
}

/// The success and error types of a result-like segment: its two arguments, where it
/// has exactly two and both are types.
pub open spec fn ok_err(segment: PathSegment) -> Result<(Seq<char>, Seq<char>), DiagnosticView> {
    match segment.arguments {
        PathArguments::AngleBracketed(args) => if args@.len() == 2 {
            match (args@[0], args@[1]) {
                (GenericArgument::Type(ok), GenericArgument::Type(err)) => Ok((ok@, err@)),
                _ => Err(DiagnosticView::IncompleteResult),
            }
        } else {
            Err(DiagnosticView::IncompleteResult)
        },
        _ => Err(DiagnosticView::IncompleteResult),
    }
}

/// A result with the success type `ok` whose error is the flattened error over `err`.
pub open spec fn flattened(ok: Seq<char>, err: Seq<char>) -> Seq<char> {
    "::std::result::Result<"@ + ok + ", ::qeap::error::FlattenedError<"@ + err + ">>"@
}

/// The return type of the synthesized function.
///
/// - `Nested` wraps the declared type, or `()`, in a result over the persistence error.
/// - `Absorb` and `Expect` keep the declared type, or `()`.
/// - `Flatten` and `FlattenErased` take a result-like type apart and put the
///   flattened error in the place of its error type, over the declared error type
///   or, erased, over a boxed error. Any other type, or none, becomes the success
///   type of a result whose flattened error has no user case.
pub open spec fn derived(mode: Mode, output: DeclaredReturn) -> Result<Seq<char>, DiagnosticView> {
    match mode {
        Mode::Nested => Ok(
            "::std::result::Result<"@ + output.written() + ", ::qeap::error::Error>"@,
        ),
        Mode::Absorb | Mode::Expect => Ok(output.written()),
        Mode::Flatten | Mode::FlattenErased => match output {
            DeclaredReturn::Absent => Ok(flattened("()"@, "::std::convert::Infallible"@)),
            DeclaredReturn::Type(ty) => if result_like(ty) {
                match ok_err(ty.shape->last) {
                    Ok((ok, err)) => if mode == Mode::FlattenErased {
                        Ok(flattened(ok, "::std::boxed::Box<dyn ::std::error::Error>"@))
                    } else {
                        Ok(flattened(ok, err))
                    },
                    Err(diagnostic) => Err(diagnostic),
                }
            } else {
                Ok(flattened(ty.tokens@, "::std::convert::Infallible"@))
            },
        },
    }
}

/// Only the flattening modes refuse a return type, and they refuse exactly the types
/// that are named like a result and do not have exactly two type arguments.
pub proof fn lemma_refused_return_types(mode: Mode, output: DeclaredReturn)
    ensures
        derived(mode, output) is Err <==> {
            &&& mode == Mode::Flatten || mode == Mode::FlattenErased
            &&& output matches DeclaredReturn::Type(ty)
            &&& result_like(ty)
            &&& ok_err(ty.shape->last) is Err
        },
        derived(mode, output) matches Err(diagnostic) ==> diagnostic
            == DiagnosticView::IncompleteResult,
{
}

/// The last path segment of a type that is named like a result.
pub fn result_segment(ty: &TypeExpr) -> (r: Option<&PathSegment>)
    ensures
        r is Some == result_like(*ty),
        r matches Some(segment) ==> *segment == ty.shape->last,
{
    match &ty.shape {
        TypeShape::Path { last } => {
            if contains(last.ident.as_str(), "Result") {
                Some(last)
            } else {
                None
            }
        },
        _ => None,
    }
}

/// The success and error types that a result-like segment names. The segment is
/// refused unless it has exactly two arguments in angle brackets and both are types.
pub fn ok_err_types(segment: &PathSegment) -> (r: Result<(String, String), Diagnostic>)
    ensures
        match r {
            Ok((ok, err)) => ok_err(*segment) == Ok::<_, DiagnosticView>((ok@, err@)),
            Err(diagnostic) => ok_err(*segment) == Err::<(Seq<char>, Seq<char>), _>(diagnostic@),
        },
{
    match &segment.arguments {
        PathArguments::AngleBracketed(args) => {
            if args.len() != 2 {
                return Err(Diagnostic::IncompleteResult);
            }
            match (&args[0], &args[1]) {
                (GenericArgument::Type(ok), GenericArgument::Type(err)) => Ok(
                    (ok.clone(), err.clone()),
                ),
                _ => Err(Diagnostic::IncompleteResult),
            }
        },
        _ => Err(Diagnostic::IncompleteResult),
    }
}

/// Puts the flattened error over `err` in the error place of a result over `ok`.
fn flatten_types(ok: &str, err: &str) -> (r: String)
    ensures
        r@ == flattened(ok@, err@),
{
    let mut out = String::from_str("::std::result::Result<");
    out.append(ok);
    out.append(", ::qeap::error::FlattenedError<");
    out.append(err);
    out.append(">>");
    out
}

/// The type that the function returns as written, `()` where none is written.
fn written_type(output: &DeclaredReturn) -> (r: String)
    ensures
        r@ == output.written(),
{
    match output {
        DeclaredReturn::Absent => String::from_str("()"),
        DeclaredReturn::Type(ty) => ty.tokens.clone(),
    }
}

/// Derives the return type of the synthesized function from the declared return type
/// and the mode. Only the flattening modes read the shape of the declared type, and
/// only they can refuse it.
pub fn derive_return_type(mode: Mode, output: &DeclaredReturn) -> (r: Result<String, Diagnostic>)
    ensures
        viewed(r) == derived(mode, *output),
{
    match mode {
        Mode::Nested => {
            let mut out = String::from_str("::std::result::Result<");
            let inner = written_type(output);
            out.append(inner.as_str());
            out.append(", ::qeap::error::Error>");
            Ok(out)
        },
        Mode::Absorb | Mode::Expect => Ok(written_type(output)),
        Mode::Flatten | Mode::FlattenErased => match output {
            DeclaredReturn::Absent => Ok(flatten_types("()", "::std::convert::Infallible")),
            DeclaredReturn::Type(ty) => match result_segment(ty) {
                Some(segment) => match ok_err_types(segment) {
                    Ok((ok, err)) => match mode {
                        Mode::FlattenErased => Ok(
                            flatten_types(
                                ok.as_str(),
                                "::std::boxed::Box<dyn ::std::error::Error>",
                            ),
                        ),
                        _ => Ok(flatten_types(ok.as_str(), err.as_str())),
                    },
                    Err(diagnostic) => Err(diagnostic),
                },
                None => Ok(flatten_types(ty.tokens.as_str(), "::std::convert::Infallible")),
            },
        },
    }
}

} // verus!
