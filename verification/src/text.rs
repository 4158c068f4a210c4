//! Comparison of string slices by their characters.

use vstd::prelude::*;

verus! {

/// Whether two string slices hold the same characters.
pub fn text_equals(a: &str, b: &str) -> (same: bool)
    ensures
        same == (a@ == b@),
{
    let n: usize = a.unicode_len();
    if n != b.unicode_len() {
        return false;
    }
    let mut i: usize = 0;
    while i < n
        invariant
            i <= n,
            n == a@.len(),
            n == b@.len(),
            forall|j: int| 0 <= j < i ==> a@[j] == b@[j],
        decreases n - i,
    {
        if a.get_char(i) != b.get_char(i) {
            return false;
        }
        i += 1;
    }
    assert(a@ =~= b@);
    true
}

} // verus!
