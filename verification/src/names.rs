//! Device-name extraction from the fixed-size UTF-16 name fields the
//! operating system's descriptors carry: the usable name is the prefix up
//! to the first NUL unit, or the whole field when no NUL is present.

use vstd::prelude::*;

verus! {

/// Length of the NUL-terminated prefix of a fixed-size UTF-16 name
/// field: the index of the first zero unit, or the field's whole length
/// if it holds none.
pub fn name_prefix_len(units: &[u16]) -> (n: usize)
    ensures
        n <= units@.len(),
        forall|i: int| 0 <= i < n ==> units@[i] != 0,
        n < units@.len() ==> units@[n as int] == 0,
{
    let mut i: usize = 0;
    while i < units.len()
        invariant
            0 <= i <= units@.len(),
            forall|j: int| 0 <= j < i ==> units@[j] != 0,
        decreases units@.len() - i,
    {
        if units[i] == 0 {
            return i;
        }
        i = i + 1;
    }
    i
}

} // verus!
