//! Tuples and slices.

use vstd::prelude::*;

verus! {

/// The pair with its two numbers swapped.
pub fn reverse(pair: (i32, i32)) -> (reversed: (i32, i32))
    ensures
        reversed == (pair.1, pair.0),
{
    (pair.1, pair.0)
}

/// The first element of a slice and the number of its elements. The slice
/// must hold at least one.
pub fn analyze_slice(slice: &[i32]) -> (found: (i32, usize))
    requires
        slice@.len() > 0,
    ensures
        found.0 == slice@[0],
        found.1 == slice@.len(),
{
    (slice[0], slice.len())
}

} // verus!
