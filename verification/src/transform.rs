//! The adapter of the flattening modes: whatever a body returns becomes a result
//! over the flattened error.

use vstd::prelude::*;
use core::convert::Infallible;
use crate::error::FlattenedError;

verus! {

/// A value that can be handed on as a result over the flattened error.
pub trait IntoFlattenedResult<T, E>: Sized {
    /// The result that the value is handed on as.
    spec fn flattened(self) -> Result<T, FlattenedError<E>>;

    /// Hands the value on as a result over the flattened error.
    fn into_flattened(self) -> (r: Result<T, FlattenedError<E>>)
        ensures
            r == self.flattened(),
    ;
}

/// A plain value is the success of a result that has no user error.
impl<T> IntoFlattenedResult<T, Infallible> for T {
    open spec fn flattened(self) -> Result<T, FlattenedError<Infallible>> {
        Ok(self)
    }

    fn into_flattened(self) -> (r: Result<T, FlattenedError<Infallible>>) {
        Ok(self)
    }
}

/// A result keeps its success, and its error becomes the user case of the
/// flattened error.
impl<T, E> IntoFlattenedResult<T, E> for Result<T, E> {
    open spec fn flattened(self) -> Result<T, FlattenedError<E>> {
        match self {
            Ok(value) => Ok(value),
            Err(error) => Err(FlattenedError::User(error)),
        }
    }

    fn into_flattened(self) -> (r: Result<T, FlattenedError<E>>) {
        match self {
            Ok(value) => Ok(value),
            Err(error) => Err(FlattenedError::User(error)),
        }
    }
}

} // verus!
