//! Evaluation of loop and branch conditions over plain and secret booleans.

use vstd::prelude::*;

use crate::secret::Secret;

verus! {

/// A type usable as a condition.
pub trait Cond {
    /// What `cond` returns.
    spec fn cond_spec(&self) -> bool;

    /// The boolean value of the condition.
    fn cond(&self) -> (r: bool)
        ensures
            r == self.cond_spec(),
    ;
}

impl Cond for bool {
    open spec fn cond_spec(&self) -> bool {
        *self
    }

    fn cond(&self) -> (r: bool) {
        *self
    }
}

impl<A> Cond for Secret<bool, A> {
    open spec fn cond_spec(&self) -> bool {
        self.val
    }

    fn cond(&self) -> (r: bool) {
        self.val
    }
}

/// Helps converting a condition type into `bool`.
pub fn cond_eval<T: Cond>(a: &T) -> (r: bool)
    ensures
        r == a.cond_spec(),
{
    a.cond()
}

} // verus!
