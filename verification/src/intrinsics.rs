//! Maps functionality of the source language's standard library.

use vstd::prelude::*;

use crate::secret::Secret;

verus! {

/// Returns the witnesses of a boolean secret, most recent first.
pub fn why<A: Clone>(sec: &Secret<bool, A>) -> (r: Vec<A>)
    ensures
        r@.len() == sec.secret@.len(),
        forall|i: int|
            0 <= i < r@.len() ==> cloned(sec.secret@[sec.secret@.len() - 1 - i], #[trigger] r@[i]),
{
    let n = sec.secret.len();
    let mut res: Vec<A> = Vec::new();
    let mut i: usize = 0;
    while i < n
        invariant
            i <= n,
            n == sec.secret@.len(),
            res@.len() == i,
            forall|k: int|
                0 <= k < i ==> cloned(sec.secret@[n - 1 - k], #[trigger] res@[k]),
        decreases n - i,
    {
        res.push(sec.secret[n - 1 - i].clone());
        i = i + 1;
    }
    res
}

/// Returns a clone of the value.
pub fn clone<T: Clone>(a: &T) -> (r: T)
    ensures
        cloned(*a, r),
{
    a.clone()
}

} // verus!
