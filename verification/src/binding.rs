//! How each parameter of the declaration is bound in the synthesized function: its
//! kind, the declaration that receives the loaded value, and the expression that
//! hands the value to the body.

use vstd::prelude::*;
use crate::diagnostic::{viewed, Diagnostic, DiagnosticView};
use crate::signature::{Pattern, TypeShape, TypedParameter};

verus! {

/// How a loaded value is handed to the body.
#[derive(Clone, Copy, Debug, PartialEq, Eq, Structural)]
pub enum BindingKind {
    /// The body takes `&T`.
    ImmutableBorrow,
    /// The body takes `&mut T`.
    MutableBorrow,
    /// The body takes the value itself, and is given a new handle to it.
    Handle,
}

/// One parameter of the declaration, classified.
#[derive(Clone, Debug, PartialEq, Eq)]
pub struct ParameterBinding {
    /// The name that binds the parameter.
    pub name: String,
    /// The type of the loaded value: the parameter's type without `&` or `&mut`.
    pub declared_type: String,
    pub kind: BindingKind,
}

/// A [`ParameterBinding`] with the characters of its texts.
pub struct BindingView {
    pub name: Seq<char>,
    pub declared_type: Seq<char>,
    pub kind: BindingKind,
}

impl View for ParameterBinding {
    type V = BindingView;

    open spec fn view(&self) -> BindingView {
        BindingView { name: self.name@, declared_type: self.declared_type@, kind: self.kind }
    }
}

/// The views of a sequence of bindings, in the same order.
pub open spec fn views(bindings: Seq<ParameterBinding>) -> Seq<BindingView> {
    bindings.map_values(|b: ParameterBinding| b@)
}

/// The kind of binding that a type of the given shape calls for.
pub open spec fn kind_of(shape: TypeShape) -> BindingKind {
    match shape {
        TypeShape::Reference { mutable, referent } => if mutable {
            BindingKind::MutableBorrow
        } else {
            BindingKind::ImmutableBorrow
        },
        _ => BindingKind::Handle,
    }
}

/// The binding of a parameter, or the refusal of its pattern.
pub open spec fn classified(parameter: TypedParameter) -> Result<BindingView, DiagnosticView> {
    match parameter.pattern {
        Pattern::Ident(name) => Ok(
            BindingView {
                name: name@,
                declared_type: parameter.ty.declared_type(),
                kind: kind_of(parameter.ty.shape),
            },
        ),
        Pattern::Other(pattern) => Err(DiagnosticView::UnsupportedPattern(pattern@)),
    }
}

impl BindingView {
    /// The declaration that receives the loaded value, without its initializer.
    pub open spec fn declaration(self) -> Seq<char> {
        if self.kind == BindingKind::MutableBorrow {
            "let mut "@ + self.name + ": "@ + self.declared_type
        } else {
            "let "@ + self.name + ": "@ + self.declared_type
        }
    }

    /// The expression that hands the loaded value to the body: a borrow, or for a
    /// handle the call that acquires a new one.
    pub open spec fn use_site(self) -> Seq<char> {
        match self.kind {
            BindingKind::ImmutableBorrow => "&"@ + self.name,
            BindingKind::MutableBorrow => "&mut "@ + self.name,
            BindingKind::Handle => "::qeap::Handle::new_handle(&"@ + self.name + ")"@,
        }
    }
}

/// Classifies one parameter by the shape of its type: a shared reference is borrowed
/// immutably, a `&mut` reference mutably, and any other type is passed as a handle.
/// A parameter that is not bound by a plain name is refused, with its pattern.
pub fn classify(parameter: &TypedParameter) -> (r: Result<ParameterBinding, Diagnostic>)
    ensures
        viewed(r) == classified(*parameter),
{
    match &parameter.pattern {
        Pattern::Ident(name) => {
            let binding = match &parameter.ty.shape {
                TypeShape::Reference { mutable, referent } => ParameterBinding {
                    name: name.clone(),
                    declared_type: referent.clone(),
                    kind: if *mutable {
                        BindingKind::MutableBorrow
                    } else {
                        BindingKind::ImmutableBorrow
                    },
                },
                _ => ParameterBinding {
                    name: name.clone(),
                    declared_type: parameter.ty.tokens.clone(),
                    kind: BindingKind::Handle,
                },
            };
            Ok(binding)
        },
        Pattern::Other(pattern) => Err(Diagnostic::UnsupportedPattern(pattern.clone())),
    }
}

impl ParameterBinding {
    /// The declaration that receives the loaded value: `let name: T`, or
    /// `let mut name: T` for a mutable borrow.
    pub fn declaration(&self) -> (r: String)
        ensures
            r@ == self@.declaration(),
    {
        let mut out = match self.kind {
            BindingKind::MutableBorrow => String::from_str("let mut "),
            _ => String::from_str("let "),
        };
        out.append(self.name.as_str());
        out.append(": ");
        out.append(self.declared_type.as_str());
        out
    }

    /// The expression that hands the loaded value to the body: `&name`, `&mut name`,
    /// or a new handle acquired from `&name`.
    pub fn use_site(&self) -> (r: String)
        ensures
            r@ == self@.use_site(),
    {
        match self.kind {
            BindingKind::ImmutableBorrow => {
                let mut out = String::from_str("&");
                out.append(self.name.as_str());
                out
            },
            BindingKind::MutableBorrow => {
                let mut out = String::from_str("&mut ");
                out.append(self.name.as_str());
                out
            },
            BindingKind::Handle => {
                let mut out = String::from_str("::qeap::Handle::new_handle(&");
                out.append(self.name.as_str());
                out.append(")");
                out
            },
        }
    }
}

} // verus!
