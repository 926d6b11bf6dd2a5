//! Persistence for plain data types, and the analysis and synthesis behind the
//! `scoped` attribute: a function that borrows persisted values becomes a function
//! of no arguments that loads them, runs the body and saves them again.

use vstd::prelude::*;

pub mod binding;
pub mod derive;
pub mod diagnostic;
pub mod error;
pub mod file;
pub mod handle;
pub mod impls;
pub mod mode;
pub mod output;
pub mod scoped;
pub mod signature;
pub mod text;
pub mod tokens;
pub mod transform;

pub use handle::Handle;

verus! {

/// What loading and saving return.
pub type QeapResult<T> = Result<T, error::Error>;

/// A type whose values are kept between runs.
pub trait Qeap {
    /// The value that is kept, or a fresh one where none is kept yet.
    fn load() -> QeapResult<Self> where Self: Sized;

    /// Keeps this value.
    fn save(&self) -> QeapResult<()>;
}

/// A place that keeps values of one type under names.
pub trait Qeaper {
    type Output;

    /// Prepares the place.
    fn init(&self) -> QeapResult<()>;

    /// The value kept under `name`.
    fn load(&self, name: &str) -> QeapResult<Self::Output>;

    /// Keeps `data` under `name`.
    fn save(&self, data: &Self::Output, name: &str) -> QeapResult<()>;
}

/// Several kept values that are loaded and saved as one.
pub trait Bundle: Qeap {

}

} // verus!
