//! Functions that announce themselves, some of them reachable from outside
//! this module and some not.

use vstd::prelude::*;
use crate::text::slice_texts;

pub mod nested;

verus! {

fn private_function() -> (line: &'static str)
    ensures
        line@ == "private function called"@,
{
    "private function called"
}

/// Announces itself.
pub fn public_function() -> (line: &'static str)
    ensures
        line@ == "public function called"@,
{
    "public function called"
}

/// Announces a call of a function that cannot be reached from outside, and
/// makes it.
pub fn indirect_access() -> (lines: Vec<&'static str>)
    ensures
        slice_texts(lines@) == seq![
            "Get ready for indirectly accessed call"@,
            "private function called"@,
        ],
{
    let mut lines: Vec<&'static str> = Vec::new();
    lines.push("Get ready for indirectly accessed call");
    lines.push(private_function());
    assert(slice_texts(lines@) =~= seq![
        "Get ready for indirectly accessed call"@,
        "private function called"@,
    ]);
    lines
}

/// Calls those functions of the nested module that this module can reach,
/// and collects what they announce.
pub fn call_public_functions() -> (lines: Vec<&'static str>)
    ensures
        slice_texts(lines@) == seq![
            "Calling some public functions"@,
            "Called public function in my_mod::nested"@,
            "Another call:-"@,
            "I am public function but only in my own module"@,
            ">"@,
            "called my_mod::nested::public_function_for_super()"@,
        ],
{
    let mut lines: Vec<&'static str> = Vec::new();
    lines.push("Calling some public functions");
    let mut inner = nested::public_function_in_my_mod();
    proof {
        let texts = slice_texts(inner@);
        assert(inner@.len() == texts.len());
        assert(inner@[0]@ == texts[0]);
        assert(inner@[1]@ == texts[1]);
        assert(inner@[2]@ == texts[2]);
    }
    lines.append(&mut inner);
    lines.push(">");
    lines.push(nested::public_function_for_super());
    assert(slice_texts(lines@) =~= seq![
        "Calling some public functions"@,
        "Called public function in my_mod::nested"@,
        "Another call:-"@,
        "I am public function but only in my own module"@,
        ">"@,
        "called my_mod::nested::public_function_for_super()"@,
    ]);
    lines
}

/// Announces itself; reachable from anywhere in this crate.
pub(crate) fn public_function_for_crate() -> (line: &'static str)
    ensures
        line@ == "called function public for crate only"@,
{
    "called function public for crate only"
}

} // verus!
