//! Shared ownership of immutable values.
//!
//! Rules and message templates are built once and then shared: every holder
//! reads the same immutable value. `vstd` identifies an `Rc` with the value
//! it points to, so a second handle to the same allocation is equal to the
//! first.

use std::rc::Rc;
use vstd::prelude::*;

verus! {

/// Relies on `Rc::clone`: the result is another handle to the same
/// allocation, so it holds the same value as the one cloned.
#[verifier::external_body]
pub(crate) fn rc_dup<T>(rc: &Rc<T>) -> (r: Rc<T>)
    ensures
        r == *rc,
{
    Rc::clone(rc)
}

} // verus!
