//! Persistence of shared values, and of places behind a reference: each hands the
//! work on to what it holds.

use vstd::prelude::*;
use std::rc::Rc;
use std::sync::Arc;
use crate::error::{Error, ErrorType, ErrorView, SimpleErr};
use crate::{Qeap, QeapResult, Qeaper};

verus! {

impl<T: Qeap> Qeap for Rc<T> {
    /// Loads the value and shares it.
    fn load() -> (r: QeapResult<Self>)
        ensures
            match r {
                Ok(shared) => T::load.ensures((), Ok::<T, Error>(*shared)),
                Err(error) => T::load.ensures((), Err::<T, Error>(error)),
            },
    {
        match T::load() {
            Ok(data) => Ok(Rc::new(data)),
            Err(error) => Err(error),
        }
    }

    /// Saves the shared value.
    fn save(&self) -> (r: QeapResult<()>)
        ensures
            T::save.ensures((&**self,), r),
    {
        T::save(&*self)
    }
}

impl<T: Qeap> Qeap for Arc<T> {
    /// Loads the value and shares it.
    fn load() -> (r: QeapResult<Self>)
        ensures
            match r {
                Ok(shared) => T::load.ensures((), Ok::<T, Error>(*shared)),
                Err(error) => T::load.ensures((), Err::<T, Error>(error)),
            },
    {
        match T::load() {
            Ok(data) => Ok(Arc::new(data)),
            Err(error) => Err(error),
        }
    }

    /// Saves the shared value.
    fn save(&self) -> (r: QeapResult<()>)
        ensures
            T::save.ensures((&**self,), r),
    {
        T::save(&*self)
    }
}

/// Saves a value that is kept behind a lock, given what taking the lock returned:
/// the value, or the error of a lock that was found poisoned. A poisoned lock is an
/// error of its own kind with the lock's message as its cause, and the value is not
/// saved.
pub fn save_guarded<T: Qeap>(taken: Result<&T, SimpleErr>) -> (r: QeapResult<()>)
    ensures
        match taken {
            Ok(data) => T::save.ensures((data,), r),
            Err(poisoned) => r matches Err(error) && error@ == (ErrorView {
                cause: poisoned.0@,
                ty: ErrorType::LockPoison,
            }),
        },
{
    match taken {
        Ok(data) => data.save(),
        Err(poisoned) => Err(Error::lock_poison(poisoned.to_string())),
    }
}

impl<T> Qeaper for &T where T: Qeaper {
    type Output = T::Output;

    fn init(&self) -> (r: QeapResult<()>)
        ensures
            T::init.ensures((*self,), r),
    {
        (&**self).init()
    }

    fn load(&self, name: &str) -> (r: QeapResult<Self::Output>)
        ensures
            T::load.ensures((*self, name), r),
    {
        (&**self).load(name)
    }

    fn save(&self, data: &Self::Output, name: &str) -> (r: QeapResult<()>)
        ensures
            T::save.ensures((*self, data, name), r),
    {
        (&**self).save(data, name)
    }
}

} // verus!
