//! Assignment helper methods.

use vstd::prelude::*;

verus! {

/// Implemented by destination types that can take a value of type `T` by
/// cross-type assignment.
pub trait SetAssign<T>: Sized {
    /// What the destination holds after the assignment.
    spec fn assigned(&self, val: &T) -> Self;

    /// Overwrites `self` with `val`.
    fn set_assign(&mut self, val: &T)
        ensures
            *final(self) == old(self).assigned(val),
    ;
}

/// Helps converting types when assigning a value.
pub fn set_assign<T: SetAssign<U>, U>(a: &mut T, b: &U)
    ensures
        *final(a) == old(a).assigned(b),
{
    a.set_assign(b)
}

} // verus!
