//! Small, self-contained building blocks: newtypes, option and result
//! pipelines, a cons list, a Fibonacci stream, text helpers, each with a
//! machine-checked contract.

use vstd::prelude::*;

pub mod closures;
pub mod collections;
pub mod combinators;
pub mod control_flow;
pub mod conversion;
pub mod cool;
pub mod csv;
pub mod deeply;
pub mod elementwise;
pub mod functions;
pub mod generics;
pub mod iterators;
pub mod linked_list;
pub mod multiple_errors;
pub mod my_mod;
pub mod my_new_mod;
pub mod options;
pub mod ownership;
pub mod parsing;
pub mod primitives;
pub mod results;
pub mod text;
pub mod traits;

verus! {

/// Announces itself.
pub fn cool_function() -> (line: &'static str)
    ensures
        line@ == "A cool function was called"@,
{
    "A cool function was called"
}

} // verus!
