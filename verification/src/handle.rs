//! New handles to values that are shared rather than copied.

use vstd::prelude::*;
use std::rc::Rc;
use std::sync::Arc;

verus! {

/// A value from which a new handle to the same data can be had without copying the
/// data.
pub trait Handle {
    type In<'a>;

    type Out;

    fn new_handle<'a>(s: Self::In<'a>) -> Self::Out;
}

/// Makes another pointer to the value of an `Rc` with `Rc::clone`, which copies the
/// pointer and leaves the value where it is.
#[verifier::external_body]
fn rc_clone<T>(rc: &Rc<T>) -> (r: Rc<T>)
    ensures
        r == *rc,
{
    Rc::clone(rc)
}

/// Makes another pointer to the value of an `Arc` with `Arc::clone`, which copies
/// the pointer and leaves the value where it is.
#[verifier::external_body]
fn arc_clone<T>(arc: &Arc<T>) -> (r: Arc<T>)
    ensures
        r == *arc,
{
    Arc::clone(arc)
}

impl<T> Handle for Rc<T> where T: 'static {
    type In<'a> = &'a Rc<T>;

    type Out = Rc<T>;

    fn new_handle<'a>(s: Self::In<'a>) -> (r: Self::Out)
        ensures
            r == *s,
    {
        rc_clone(s)
    }
}

impl<T> Handle for Arc<T> where T: 'static {
    type In<'a> = &'a Arc<T>;

    type Out = Arc<T>;

    fn new_handle<'a>(s: Self::In<'a>) -> (r: Self::Out)
        ensures
            r == *s,
    {
        arc_clone(s)
    }
}

impl<'a, T> Handle for &'a T {
    type In<'b> = &'a T;

    type Out = Self;

    fn new_handle<'b>(s: Self::In<'b>) -> (r: Self::Out)
        ensures
            r == s,
    {
        s
    }
}

impl<'a, T> Handle for &'a mut T {
    type In<'b> = &'a mut T;

    type Out = Self;

    fn new_handle<'b>(s: Self::In<'b>) -> (r: Self::Out)
        ensures
            *r == *old(s),
            *final(r) == *final(s),
    {
        s
    }
}

} // verus!
