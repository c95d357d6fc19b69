//! A module that calls a function of its parent under the same name.

use vstd::prelude::*;
use crate::text::slice_texts;

verus! {

/// Announces itself, then calls the function of the same name one level up.
pub fn cool_function() -> (lines: Vec<&'static str>)
    ensures
        slice_texts(lines@) == seq![
            "Called cool::cool_function()"@,
            "Calling my parent's function"@,
            "A cool function was called"@,
        ],
{
    let mut lines: Vec<&'static str> = Vec::new();
    lines.push("Called cool::cool_function()");
    lines.push("Calling my parent's function");
    lines.push(super::cool_function());
    assert(slice_texts(lines@) =~= seq![
        "Called cool::cool_function()"@,
        "Calling my parent's function"@,
        "A cool function was called"@,
    ]);
    lines
}

} // verus!
