//! A function declaration as the analysis reads it: the few shapes that decide how a
//! parameter is bound and how the return type is reshaped, and the text of everything
//! that is carried over as written.

use vstd::prelude::*;

verus! {

/// One argument between the angle brackets of a path segment.
#[derive(Clone, Debug, PartialEq, Eq)]
pub enum GenericArgument {
    /// A type, as written.
    Type(String),
    /// A lifetime, a constant, a binding or a constraint.
    Other,
}

/// What follows the name of a path segment.
#[derive(Clone, Debug, PartialEq, Eq)]
pub enum PathArguments {
    /// Nothing, as in `Result`.
    Bare,
    /// Arguments in angle brackets, as in `Result<T, E>`.
    AngleBracketed(Vec<GenericArgument>),
    /// Arguments in round brackets, as in `Fn(A) -> B`.
    Parenthesized,
}

/// One segment of a path: a name and its arguments.
#[derive(Clone, Debug, PartialEq, Eq)]
pub struct PathSegment {
    pub ident: String,
    pub arguments: PathArguments,
}

/// The outermost shape of a type.
#[derive(Clone, Debug, PartialEq, Eq)]
pub enum TypeShape {
    /// `&T` or `&mut T`, with the referent `T` as written.
    Reference { mutable: bool, referent: String },
    /// A path; only its last segment is read.
    Path { last: PathSegment },
    /// Any other type.
    Other,
}

/// A type as written, together with its outermost shape.
#[derive(Clone, Debug, PartialEq, Eq)]
pub struct TypeExpr {
    pub tokens: String,
    pub shape: TypeShape,
}

/// The pattern that binds a parameter.
#[derive(Clone, Debug, PartialEq, Eq)]
pub enum Pattern {
    /// A plain name, as in `config: &Config`.
    Ident(String),
    /// Anything else, as in `(a, b): (A, B)`; holds a description of the pattern.
    Other(String),
}

/// A parameter with a pattern and a type.
#[derive(Clone, Debug, PartialEq, Eq)]
pub struct TypedParameter {
    pub pattern: Pattern,
    pub ty: TypeExpr,
}

/// One entry of a parameter list.
#[derive(Clone, Debug, PartialEq, Eq)]
pub enum Parameter {
    /// `self` in any of its forms.
    Receiver,
    /// Any other parameter.
    Typed(TypedParameter),
}

/// The return type that a function declares.
#[derive(Clone, Debug, PartialEq, Eq)]
pub enum DeclaredReturn {
    /// No return type is written.
    Absent,
    /// The type after `->`.
    Type(TypeExpr),
}

/// A function declaration. `prefix`, `name` and `suffix` are the whole declaration in
/// three pieces: everything up to and including `fn`, the name, and everything after
/// the name (generics, parameters, return type, `where` clause and body).
#[derive(Clone, Debug, PartialEq, Eq)]
pub struct OriginalSignature {
    pub prefix: String,
    pub name: String,
    pub suffix: String,
    pub parameters: Vec<Parameter>,
    pub output: DeclaredReturn,
}

impl TypeExpr {
    /// The type that a loaded value is declared with: the referent of a reference,
    /// any other type as written.
    pub open spec fn declared_type(&self) -> Seq<char> {
        match self.shape {
            TypeShape::Reference { mutable, referent } => referent@,
            _ => self.tokens@,
        }
    }
}

impl DeclaredReturn {
    /// The type that the function returns: `()` where none is written.
    pub open spec fn written(&self) -> Seq<char> {
        match self {
            DeclaredReturn::Absent => "()"@,
            DeclaredReturn::Type(ty) => ty.tokens@,
        }
    }
}

} // verus!
