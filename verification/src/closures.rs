//! Functions that hand out functions.

use vstd::prelude::*;

verus! {

/// A function that adds `y` to its argument. It accepts every argument for
/// which the sum fits in an `i32`.
pub fn make_adder_function(y: i32) -> (adder: impl Fn(i32) -> i32)
    ensures
        forall|x: i32| i32::MIN <= x + y <= i32::MAX ==> #[trigger] adder.requires((x,)),
        forall|x: i32, sum: i32| #[trigger] adder.ensures((x,), sum) ==> sum == x + y,
{
    let closure = move |x: i32| -> (sum: i32)
        requires
            i32::MIN <= x + y <= i32::MAX
        ensures
            sum == x + y
    {
        x + y
    };
    closure
}

/// Adds `y` to `x` with an adder made for `y`.
pub fn add_with_adder(x: i32, y: i32) -> (sum: i32)
    requires
        i32::MIN <= x + y <= i32::MAX,
    ensures
        sum == x + y,
{
    let adder = make_adder_function(y);
    adder(x)
}

} // verus!
