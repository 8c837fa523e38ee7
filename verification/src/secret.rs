//! A value carried together with the witness sequence that justifies it.

use vstd::prelude::*;

verus! {

/// Wraps a value with a secret: an ordered sequence of witnesses.
pub struct Secret<T, A> {
    pub val: T,
    pub secret: Vec<A>,
}

impl<A> Secret<bool, A> {
    /// A boolean secret with an empty witness sequence.
    pub fn new_bool(val: bool) -> (r: Secret<bool, A>)
        ensures
            r.val == val,
            r.secret@ == Seq::<A>::empty(),
    {
        Secret { val, secret: Vec::new() }
    }

    /// In-place boolean or, leaving the witnesses untouched.
    pub fn or_assign(&mut self, rhs: bool)
        ensures
            final(self).val == (old(self).val || rhs),
            final(self).secret == old(self).secret,
    {
        self.val = self.val || rhs;
    }

    /// In-place boolean and, leaving the witnesses untouched.
    pub fn and_assign(&mut self, rhs: bool)
        ensures
            final(self).val == (old(self).val && rhs),
            final(self).secret == old(self).secret,
    {
        self.val = self.val && rhs;
    }
}

/// Implemented by types that might carry secrets.
pub trait SecretValue {
    type ValueType;

    /// What `value` returns.
    spec fn value_spec(&self) -> Self::ValueType;

    /// Returns the value of the type (not the secret).
    fn value(&self) -> (r: Self::ValueType)
        ensures
            r == self.value_spec(),
    ;
}

impl<T: Copy, A> SecretValue for Secret<T, A> {
    type ValueType = T;

    open spec fn value_spec(&self) -> T {
        self.val
    }

    fn value(&self) -> (r: T) {
        self.val
    }
}

impl SecretValue for bool {
    type ValueType = bool;

    open spec fn value_spec(&self) -> bool {
        *self
    }

    fn value(&self) -> (r: bool) {
        *self
    }
}

} // verus!
