//! Plain functions, functions that take functions, and a few sums.

use vstd::prelude::*;
use vstd::string::*;
use crate::text::{decimal, decimal_string, signed_decimal, signed_decimal_string};

verus! {

/// Tells whether `rhs` divides `lhs`. Nothing is divisible by zero.
pub fn is_divisible_by(lhs: u32, rhs: u32) -> (divisible: bool)
    ensures
        divisible == (rhs != 0 && lhs % rhs == 0),
{
    if rhs == 0 {
        return false;
    }
    lhs % rhs == 0
}

/// The line that the game of fizz-buzz has for `n`: `fizzbuzz` for a
/// multiple of fifteen, `fizz` for another multiple of three, `buzz` for
/// another multiple of five, and the number itself for the rest.
pub open spec fn fizzbuzz_line(n: nat) -> Seq<char> {
    if n % 15 == 0 {
        "fizzbuzz"@
    } else if n % 3 == 0 {
        "fizz"@
    } else if n % 5 == 0 {
        "buzz"@
    } else {
        decimal(n)
    }
}

/// The fizz-buzz line for `n`.
pub fn fizzbuzz(n: u32) -> (line: String)
    ensures
        line@ == fizzbuzz_line(n as nat),
{
    if is_divisible_by(n, 15) {
        String::from_str("fizzbuzz")
    } else if is_divisible_by(n, 3) {
        String::from_str("fizz")
    } else if is_divisible_by(n, 5) {
        String::from_str("buzz")
    } else {
        decimal_string(n as u64)
    }
}

/// The fizz-buzz lines for 1 up to and including `n`, in order.
pub fn fizzbuzz_to(n: u32) -> (lines: Vec<String>)
    ensures
        lines@.len() == n,
        forall|i: int| 0 <= i < n ==> (#[trigger] lines@[i])@ == fizzbuzz_line((i + 1) as nat),
{
    let mut lines: Vec<String> = Vec::new();
    let mut done: u32 = 0;
    while done < n
        invariant
            done <= n,
            lines@.len() == done,
            forall|i: int| 0 <= i < done ==> (#[trigger] lines@[i])@ == fizzbuzz_line(
                (i + 1) as nat,
            ),
        decreases n - done,
    {
        lines.push(fizzbuzz(done + 1));
        done += 1;
    }
    lines
}

/// Two boxed numbers.
pub struct Pair(pub Box<i32>, pub Box<i32>);

impl Pair {
    /// Takes the pair apart for good and reports what it held.
    pub fn destroy(self) -> (report: String)
        ensures
            report@ == "Destroying ("@ + signed_decimal(*self.0 as int) + ", "@ + signed_decimal(
                *self.1 as int,
            ) + ")"@,
    {
        let Pair(first, second) = self;
        let mut report = String::from_str("Destroying (");
        let first_text = signed_decimal_string(*first as i64);
        report.append(first_text.as_str());
        report.append(", ");
        let second_text = signed_decimal_string(*second as i64);
        report.append(second_text.as_str());
        report.append(")");
        report
    }
}

/// Calls `f` once.
pub fn apply<F>(f: F) where F: FnOnce()
    requires
        f.requires(()),
    ensures
        f.ensures((), ()),
{
    f();
}

/// Calls `f` on the number three and returns what it returns.
pub fn apply_to_3<F>(f: F) -> (result: i32) where F: Fn(i32) -> i32
    requires
        f.requires((3i32,)),
    ensures
        f.ensures((3i32,), result),
{
    f(3)
}

/// Tells whether `n` is odd.
pub fn is_odd(n: u32) -> (odd: bool)
    ensures
        odd == (n % 2 == 1),
{
    n % 2 == 1
}

/// The sum of the odd numbers below `up_to`.
pub open spec fn odd_sum(up_to: nat) -> nat
    decreases up_to,
{
    if up_to == 0 {
        0
    } else {
        let last = (up_to - 1) as nat;
        odd_sum(last) + if last % 2 == 1 {
            last
        } else {
            0
        }
    }
}

/// The sum of the odd numbers below a bound grows with the bound.
pub proof fn lemma_odd_sum_monotonic(a: nat, b: nat)
    requires
        a <= b,
    ensures
        odd_sum(a) <= odd_sum(b),
    decreases b,
{
    if a < b {
        lemma_odd_sum_monotonic(a, (b - 1) as nat);
    }
}

/// The odd numbers below `up_to` add up to the square of half of `up_to`.
pub proof fn lemma_odd_sum_is_square(up_to: nat)
    ensures
        odd_sum(up_to) == (up_to / 2) * (up_to / 2),
    decreases up_to,
{
    if up_to > 0 {
        let last = (up_to - 1) as nat;
        lemma_odd_sum_is_square(last);
        let h = last / 2;
        let half = up_to / 2;
        if last % 2 == 1 {
            assert(half == h + 1);
            assert(last == 2 * h + 1);
            assert(half * half == h * h + 2 * h + 1) by (nonlinear_arith)
                requires
                    half == h + 1,
            ;
        } else {
            assert(half == h);
        }
    } else {
        assert((up_to / 2) * (up_to / 2) == 0) by (nonlinear_arith)
            requires
                up_to == 0,
        ;
    }
}

/// Adds up the odd numbers below `up_to`.
pub fn sum_odd(up_to: u32) -> (sum: u32)
    requires
        odd_sum(up_to as nat) <= u32::MAX,
    ensures
        sum == odd_sum(up_to as nat),
{
    let mut sum: u32 = 0;
    let mut i: u32 = 0;
    while i < up_to
        invariant
            i <= up_to,
            sum == odd_sum(i as nat),
            odd_sum(up_to as nat) <= u32::MAX,
        decreases up_to - i,
    {
        proof {
            lemma_odd_sum_monotonic((i + 1) as nat, up_to as nat);
        }
        if i % 2 == 1 {
            sum += i;
        }
        i += 1;
    }
    sum
}

/// The sum of the odd squares below `upper` among the squares of the
/// numbers below `count`.
pub open spec fn odd_square_sum(count: nat, upper: nat) -> nat
    decreases count,
{
    if count == 0 {
        0
    } else {
        let k = (count - 1) as nat;
        odd_square_sum(k, upper) + if k * k < upper && (k * k) % 2 == 1 {
            k * k
        } else {
            0
        }
    }
}

/// The sum of all odd squares below `upper`.
pub open spec fn odd_squares_below(upper: nat) -> nat {
    odd_square_sum(upper, upper)
}

/// Counting further numbers never lowers the sum of odd squares.
proof fn lemma_odd_square_sum_monotonic(a: nat, b: nat, upper: nat)
    requires
        a <= b,
    ensures
        odd_square_sum(a, upper) <= odd_square_sum(b, upper),
    decreases b,
{
    if a < b {
        lemma_odd_square_sum_monotonic(a, (b - 1) as nat, upper);
    }
}

/// Numbers whose square has reached `upper` add nothing to the sum.
proof fn lemma_odd_square_sum_complete(n: nat, count: nat, upper: nat)
    requires
        n <= count,
        n * n >= upper,
    ensures
        odd_square_sum(count, upper) == odd_square_sum(n, upper),
    decreases count,
{
    if n < count {
        let k = (count - 1) as nat;
        lemma_odd_square_sum_complete(n, k, upper);
        assert(k * k >= n * n) by (nonlinear_arith)
            requires
                k >= n,
        ;
    }
}

/// Adds up the odd squares below `upper`.
pub fn sum_of_odd_squares(upper: u32) -> (sum: u32)
    requires
        odd_squares_below(upper as nat) <= u32::MAX,
    ensures
        sum == odd_squares_below(upper as nat),
{
    let mut acc: u32 = 0;
    let mut n: u32 = 0;
    loop
        invariant
            n <= upper,
            acc == odd_square_sum(n as nat, upper as nat),
            odd_squares_below(upper as nat) <= u32::MAX,
        ensures
            n <= upper,
            n * n >= upper,
            acc == odd_square_sum(n as nat, upper as nat),
        decreases upper - n,
    {
        assert(n * n <= 0xFFFF_FFFF * 0xFFFF_FFFF) by (nonlinear_arith)
            requires
                0 <= n <= 0xFFFF_FFFF,
        ;
        let n_square: u64 = (n as u64) * (n as u64);
        if n_square >= upper as u64 {
            break;
        }
        proof {
            assert(n < upper) by (nonlinear_arith)
                requires
                    n * n < upper,
            ;
            lemma_odd_square_sum_monotonic((n + 1) as nat, upper as nat, upper as nat);
        }
        if is_odd(n_square as u32) {
            acc += n_square as u32;
        }
        n += 1;
    }
    proof {
        lemma_odd_square_sum_complete(n as nat, upper as nat, upper as nat);
    }
    acc
}

} // verus!
