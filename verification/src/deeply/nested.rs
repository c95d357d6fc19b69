//! The inner of two nested modules.

use vstd::prelude::*;

verus! {

/// Announces itself.
pub fn function() -> (line: &'static str)
    ensures
        line@ == "I am a deeply nested function!"@,
{
    "I am a deeply nested function!"
}

} // verus!
