//! The errors of loading and saving, and the flattened error that holds either one
//! of them or an error of the caller's own.

use vstd::prelude::*;
use vstd::std_specs::convert::FromSpecImpl;

verus! {

/// The step of persistence that failed.
#[derive(Clone, Copy, Debug, PartialEq, Eq, Structural)]
pub enum ErrorType {
    Load,
    Save,
    Init,
    /// A save that found the lock around the value poisoned.
    LockPoison,
}

impl ErrorType {
    /// The name of the step as it stands in messages. A poisoned lock is met while
    /// saving, and reads as the save that it failed.
    pub open spec fn text(self) -> Seq<char> {
        match self {
            ErrorType::Load => "load"@,
            ErrorType::Save | ErrorType::LockPoison => "save"@,
            ErrorType::Init => "init"@,
        }
    }

    /// The name of the step: `load`, `save` or `init`.
    pub fn to_string(&self) -> (r: String)
        ensures
            r@ == self.text(),
    {
        match self {
            ErrorType::Load => String::from_str("load"),
            ErrorType::Save | ErrorType::LockPoison => String::from_str("save"),
            ErrorType::Init => String::from_str("init"),
        }
    }
}

/// An error that is nothing but its message.
#[derive(Clone, Debug, PartialEq, Eq)]
pub struct SimpleErr(pub String);

impl SimpleErr {
    /// The message.
    pub fn to_string(&self) -> (r: String)
        ensures
            r@ == self.0@,
    {
        self.0.clone()
    }
}

/// A failure of persistence: the step that failed and the message of its cause.
#[derive(Clone, Debug, PartialEq, Eq)]
pub struct Error {
    cause: String,
    ty: ErrorType,
}

/// An [`Error`] with the characters of its cause.
pub struct ErrorView {
    pub cause: Seq<char>,
    pub ty: ErrorType,
}

impl ErrorView {
    /// The message of the error: the step, then the cause.
    pub open spec fn message(self) -> Seq<char> {
        "failed to "@ + self.ty.text() + " qeap data: "@ + self.cause
    }
}

impl View for Error {
    type V = ErrorView;

    closed spec fn view(&self) -> ErrorView {
        ErrorView { cause: self.cause@, ty: self.ty }
    }
}

impl Error {
    /// A failure to load, with the message of its cause.
    pub fn load(cause: String) -> (r: Self)
        ensures
            r@ == (ErrorView { cause: cause@, ty: ErrorType::Load }),
    {
        Self { cause, ty: ErrorType::Load }
    }

    /// A failure to save, with the message of its cause.
    pub fn save(cause: String) -> (r: Self)
        ensures
            r@ == (ErrorView { cause: cause@, ty: ErrorType::Save }),
    {
        Self { cause, ty: ErrorType::Save }
    }

    /// A failure to prepare the place where data is kept, with the message of its
    /// cause.
    pub fn init(cause: String) -> (r: Self)
        ensures
            r@ == (ErrorView { cause: cause@, ty: ErrorType::Init }),
    {
        Self { cause, ty: ErrorType::Init }
    }

    /// A failure to save because the lock around the value was found poisoned, with
    /// the message of the lock.
    pub fn lock_poison(cause: String) -> (r: Self)
        ensures
            r@ == (ErrorView { cause: cause@, ty: ErrorType::LockPoison }),
    {
        Self { cause, ty: ErrorType::LockPoison }
    }

    /// The step that failed.
    pub fn ty(&self) -> (r: ErrorType)
        ensures
            r == self@.ty,
    {
        self.ty
    }

    /// The message of the cause.
    pub fn cause(&self) -> (r: &str)
        ensures
            r@ == self@.cause,
    {
        self.cause.as_str()
    }

    /// The message of the error: `failed to <step> qeap data: <cause>`.
    pub fn to_string(&self) -> (r: String)
        ensures
            r@ == self@.message(),
    {
        let mut out = String::from_str("failed to ");
        let step = self.ty.to_string();
        out.append(step.as_str());
        out.append(" qeap data: ");
        out.append(self.cause.as_str());
        out
    }
}

/// Either a failure of persistence or an error of the caller's own.
#[derive(Clone, Debug, PartialEq, Eq)]
pub enum FlattenedError<E> {
    Qeap(Error),
    User(E),
}

impl<E> From<Error> for FlattenedError<E> {
    fn from(value: Error) -> (r: Self) {
        FlattenedError::Qeap(value)
    }
}

impl<E> FromSpecImpl<Error> for FlattenedError<E> {
    open spec fn obeys_from_spec() -> bool {
        true
    }

    open spec fn from_spec(value: Error) -> Self {
        FlattenedError::Qeap(value)
    }
}

} // verus!
