//! The boolean unary operator of the runtime surface.  (Numeric negation
//! carries floats and lives outside the verified library.)

use vstd::prelude::*;

use crate::secret::Secret;

verus! {

/// A type with a logical complement.
pub trait Not {
    type Output;

    /// What `not` guarantees of its result.
    spec fn not_spec(&self, r: &Self::Output) -> bool;

    fn not(&self) -> (r: Self::Output)
        ensures
            self.not_spec(&r),
    ;
}

impl Not for bool {
    type Output = bool;

    open spec fn not_spec(&self, r: &bool) -> bool {
        *r == !*self
    }

    fn not(&self) -> (r: bool) {
        !*self
    }
}

impl<A: Clone> Not for Secret<bool, A> {
    type Output = Secret<bool, A>;

    open spec fn not_spec(&self, r: &Secret<bool, A>) -> bool {
        &&& r.val == !self.val
        &&& r.secret@.len() == self.secret@.len()
        &&& forall|i: int|
            0 <= i < r.secret@.len() ==> cloned(self.secret@[i], #[trigger] r.secret@[i])
    }

    fn not(&self) -> (r: Secret<bool, A>) {
        Secret { val: !self.val, secret: self.secret.clone() }
    }
}

/// Complements a condition value, keeping any witnesses.
pub fn not<T: Not>(a: &T) -> (r: T::Output)
    ensures
        a.not_spec(&r),
{
    a.not()
}

} // verus!
