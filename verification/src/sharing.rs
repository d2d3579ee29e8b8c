use std::rc::Rc;
use vstd::prelude::*;

verus! {

/// Another pointer to the value behind `r` (`Rc::clone`). The standard library documents
/// that the clone points to the same allocation, so it holds the same value.
#[verifier::external_body]
pub(crate) fn rc_clone<T>(r: &Rc<T>) -> (c: Rc<T>)
    ensures
        c == *r,
{
    Rc::clone(r)
}

} // verus!
