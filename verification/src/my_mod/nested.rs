//! A module inside a module, with functions of every visibility.

use vstd::prelude::*;
use crate::text::slice_texts;

verus! {

/// Announces itself.
pub fn function() -> (line: &'static str)
    ensures
        line@ == "public function from nested module called"@,
{
    "public function from nested module called"
}

/// Announces itself and a function that only this module can reach;
/// reachable from the enclosing module.
pub(in crate::my_mod) fn public_function_in_my_mod() -> (lines: Vec<&'static str>)
    ensures
        slice_texts(lines@) == seq![
            "Called public function in my_mod::nested"@,
            "Another call:-"@,
            "I am public function but only in my own module"@,
        ],
{
    let mut lines: Vec<&'static str> = Vec::new();
    lines.push("Called public function in my_mod::nested");
    lines.push("Another call:-");
    lines.push(public_yet_private_function());
    assert(slice_texts(lines@) =~= seq![
        "Called public function in my_mod::nested"@,
        "Another call:-"@,
        "I am public function but only in my own module"@,
    ]);
    lines
}

pub(self) fn public_yet_private_function() -> (line: &'static str)
    ensures
        line@ == "I am public function but only in my own module"@,
{
    "I am public function but only in my own module"
}

/// Announces itself; reachable from the enclosing module.
pub(super) fn public_function_for_super() -> (line: &'static str)
    ensures
        line@ == "called my_mod::nested::public_function_for_super()"@,
{
    "called my_mod::nested::public_function_for_super()"
}

} // verus!
