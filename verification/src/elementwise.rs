//! Arithmetic on two lists, element by element, and the least of several
//! numbers.

use vstd::prelude::*;
use vstd::std_specs::ops::{AddSpec, MulSpec, SubSpec};

verus! {

/// Adds to each element of `xs` the element of `ys` at the same place. The
/// lists must be equally long.
pub fn add_assign<T: core::ops::Add<T, Output = T> + Copy>(xs: &mut Vec<T>, ys: &Vec<T>)
    requires
        old(xs)@.len() == ys@.len(),
        forall|i: int| 0 <= i < ys@.len() ==> (#[trigger] old(xs)@[i]).add_req(ys@[i]),
    ensures
        final(xs)@.len() == old(xs)@.len(),
        T::obeys_add_spec() ==> forall|i: int|
            0 <= i < ys@.len() ==> #[trigger] final(xs)@[i] == old(xs)@[i].add_spec(ys@[i]),
{
    let ghost before = xs@;
    let mut i: usize = 0;
    while i < xs.len()
        invariant
            i <= xs.len(),
            xs@.len() == before.len(),
            before.len() == ys@.len(),
            forall|k: int| 0 <= k < ys@.len() ==> (#[trigger] before[k]).add_req(ys@[k]),
            forall|k: int| i <= k < before.len() ==> xs@[k] == before[k],
            T::obeys_add_spec() ==> forall|k: int|
                0 <= k < i ==> #[trigger] xs@[k] == before[k].add_spec(ys@[k]),
        decreases xs.len() - i,
    {
        let x = xs[i];
        let y = ys[i];
        assert(x == before[i as int]);
        xs.set(i, x + y);
        i += 1;
    }
}

/// Multiplies each element of `xs` by the element of `ys` at the same place.
/// The lists must be equally long.
pub fn mul_assign<T: core::ops::Mul<T, Output = T> + Copy>(xs: &mut Vec<T>, ys: &Vec<T>)
    requires
        old(xs)@.len() == ys@.len(),
        forall|i: int| 0 <= i < ys@.len() ==> (#[trigger] old(xs)@[i]).mul_req(ys@[i]),
    ensures
        final(xs)@.len() == old(xs)@.len(),
        T::obeys_mul_spec() ==> forall|i: int|
            0 <= i < ys@.len() ==> #[trigger] final(xs)@[i] == old(xs)@[i].mul_spec(ys@[i]),
{
    let ghost before = xs@;
    let mut i: usize = 0;
    while i < xs.len()
        invariant
            i <= xs.len(),
            xs@.len() == before.len(),
            before.len() == ys@.len(),
            forall|k: int| 0 <= k < ys@.len() ==> (#[trigger] before[k]).mul_req(ys@[k]),
            forall|k: int| i <= k < before.len() ==> xs@[k] == before[k],
            T::obeys_mul_spec() ==> forall|k: int|
                0 <= k < i ==> #[trigger] xs@[k] == before[k].mul_spec(ys@[k]),
        decreases xs.len() - i,
    {
        let x = xs[i];
        let y = ys[i];
        assert(x == before[i as int]);
        xs.set(i, x * y);
        i += 1;
    }
}

/// Subtracts from each element of `xs` the element of `ys` at the same
/// place. The lists must be equally long.
pub fn sub_assign<T: core::ops::Sub<T, Output = T> + Copy>(xs: &mut Vec<T>, ys: &Vec<T>)
    requires
        old(xs)@.len() == ys@.len(),
        forall|i: int| 0 <= i < ys@.len() ==> (#[trigger] old(xs)@[i]).sub_req(ys@[i]),
    ensures
        final(xs)@.len() == old(xs)@.len(),
        T::obeys_sub_spec() ==> forall|i: int|
            0 <= i < ys@.len() ==> #[trigger] final(xs)@[i] == old(xs)@[i].sub_spec(ys@[i]),
{
    let ghost before = xs@;
    let mut i: usize = 0;
    while i < xs.len()
        invariant
            i <= xs.len(),
            xs@.len() == before.len(),
            before.len() == ys@.len(),
            forall|k: int| 0 <= k < ys@.len() ==> (#[trigger] before[k]).sub_req(ys@[k]),
            forall|k: int| i <= k < before.len() ==> xs@[k] == before[k],
            T::obeys_sub_spec() ==> forall|k: int|
                0 <= k < i ==> #[trigger] xs@[k] == before[k].sub_spec(ys@[k]),
        decreases xs.len() - i,
    {
        let x = xs[i];
        let y = ys[i];
        assert(x == before[i as int]);
        xs.set(i, x - y);
        i += 1;
    }
}

/// The least of `x` and the numbers in `ys`.
pub fn find_min(x: i32, ys: &Vec<i32>) -> (least: i32)
    ensures
        least <= x,
        forall|i: int| 0 <= i < ys@.len() ==> least <= #[trigger] ys@[i],
        least == x || exists|i: int| 0 <= i < ys@.len() && least == #[trigger] ys@[i],
{
    let mut least = x;
    let mut i: usize = 0;
    while i < ys.len()
        invariant
            i <= ys.len(),
            least <= x,
            forall|k: int| 0 <= k < i ==> least <= #[trigger] ys@[k],
            least == x || exists|k: int| 0 <= k < i && least == #[trigger] ys@[k],
        decreases ys.len() - i,
    {
        if ys[i] < least {
            least = ys[i];
        }
        i += 1;
    }
    least
}

} // verus!
