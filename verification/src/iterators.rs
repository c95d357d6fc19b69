//! Streams of numbers: the Fibonacci sequence, two lists chained and
//! repeated for ever, and a list filtered and mapped.

use vstd::prelude::*;

verus! {

/// The Fibonacci number at position `n`: 0, 1, 1, 2, 3, 5, ...
pub open spec fn fib(n: nat) -> nat
    decreases n,
{
    if n == 0 {
        0
    } else if n == 1 {
        1
    } else {
        fib((n - 2) as nat) + fib((n - 1) as nat)
    }
}

/// The Fibonacci numbers never decrease.
pub proof fn lemma_fib_monotonic(a: nat, b: nat)
    requires
        a <= b,
    ensures
        fib(a) <= fib(b),
    decreases b,
{
    if a < b {
        if b == 1 {
        } else {
            lemma_fib_monotonic(a, (b - 1) as nat);
        }
    }
}

/// A walk along the Fibonacci sequence.
pub struct Fibonacci {
    current: u32,
    next: u32,
    position: Ghost<nat>,
}

impl Fibonacci {
    /// How many numbers the walk has handed out.
    pub closed spec fn position(&self) -> nat {
        self.position@
    }

    /// The walk holds the number at its position and the one after it.
    pub closed spec fn well_formed(&self) -> bool {
        &&& self.current == fib(self.position@)
        &&& self.next == fib(self.position@ + 1)
    }

    /// Hands out the number at the current position and moves on by one.
    /// The number two positions further on is computed on the way, so it has
    /// to fit in a `u32`.
    pub fn next(&mut self) -> (item: Option<u32>)
        requires
            old(self).well_formed(),
            fib(old(self).position() + 2) <= u32::MAX,
        ensures
            item == Some(fib(old(self).position()) as u32),
            final(self).well_formed(),
            final(self).position() == old(self).position() + 1,
    {
        let current = self.current;
        self.current = self.next;
        self.next = current + self.next;
        self.position = Ghost((self.position@ + 1) as nat);
        Some(current)
    }
}

/// A walk that starts at the beginning of the Fibonacci sequence.
pub fn fibonacci() -> (walk: Fibonacci)
    ensures
        walk.well_formed(),
        walk.position() == 0,
{
    Fibonacci { current: 0, next: 1, position: Ghost(0) }
}

/// The `take` Fibonacci numbers that follow the first `skip`.
pub fn fibonacci_terms(skip: usize, take: usize) -> (terms: Vec<u32>)
    requires
        fib((skip + take + 1) as nat) <= u32::MAX,
    ensures
        terms@.len() == take,
        forall|i: int| 0 <= i < take ==> #[trigger] terms@[i] == fib((skip + i) as nat),
{
    let mut walk = fibonacci();
    let mut skipped: usize = 0;
    while skipped < skip
        invariant
            skipped <= skip,
            walk.well_formed(),
            walk.position() == skipped,
            fib((skip + take + 1) as nat) <= u32::MAX,
        decreases skip - skipped,
    {
        proof {
            lemma_fib_monotonic((skipped + 2) as nat, (skip + take + 1) as nat);
        }
        let _ = walk.next();
        skipped += 1;
    }
    let mut terms: Vec<u32> = Vec::new();
    let mut taken: usize = 0;
    while taken < take
        invariant
            taken <= take,
            walk.well_formed(),
            walk.position() == skip + taken,
            fib((skip + take + 1) as nat) <= u32::MAX,
            terms@.len() == taken,
            forall|i: int| 0 <= i < taken ==> #[trigger] terms@[i] == fib((skip + i) as nat),
        decreases take - taken,
    {
        proof {
            lemma_fib_monotonic((skip + taken + 2) as nat, (skip + take + 1) as nat);
        }
        match walk.next() {
            Some(term) => terms.push(term),
            None => {},
        }
        taken += 1;
    }
    terms
}

/// Two lists, one after the other, repeated without end.
pub struct Cycled {
    items: Vec<i32>,
    position: usize,
}

impl Cycled {
    /// The items of one round.
    pub closed spec fn round(&self) -> Seq<i32> {
        self.items@
    }

    /// The place in the round of the item that comes next.
    pub closed spec fn position(&self) -> nat {
        self.position as nat
    }

    /// The place of the next item lies within the round.
    pub closed spec fn well_formed(&self) -> bool {
        self.position < self.items@.len() || (self.position == 0 && self.items@.len() == 0)
    }

    /// Hands out the next item and moves on, going back to the start after
    /// the last item of the round. An empty round hands out nothing.
    pub fn next(&mut self) -> (item: Option<i32>)
        requires
            old(self).well_formed(),
        ensures
            final(self).well_formed(),
            final(self).round() == old(self).round(),
            old(self).round().len() == 0 ==> item is None && final(self).position() == 0,
            old(self).round().len() > 0 ==> item == Some(old(self).round()[old(self).position() as int])
                && final(self).position() == (old(self).position() + 1) % old(self).round().len(),
    {
        if self.items.len() == 0 {
            return None;
        }
        let item = self.items[self.position];
        let ghost len = self.items@.len() as int;
        let ghost place = self.position as int;
        if self.position + 1 == self.items.len() {
            assert((place + 1) % len == 0) by (nonlinear_arith)
                requires
                    place + 1 == len,
                    len > 0,
            ;
            self.position = 0;
        } else {
            assert((place + 1) % len == place + 1) by (nonlinear_arith)
                requires
                    0 <= place + 1 < len,
            ;
            self.position += 1;
        }
        Some(item)
    }
}

/// The items of `v`, then those of `u`, then all of them again, for ever.
pub fn combine_vectors_explicit_return_type(v: Vec<i32>, u: Vec<i32>) -> (cycle: Cycled)
    ensures
        cycle.well_formed(),
        cycle.round() == v@ + u@,
        cycle.position() == 0,
{
    let mut items = v;
    let mut rest = u;
    items.append(&mut rest);
    Cycled { items, position: 0 }
}

/// The items of `v`, then those of `u`, then all of them again, for ever.
pub fn combine_vectors(v: Vec<i32>, u: Vec<i32>) -> (cycle: Cycled)
    ensures
        cycle.well_formed(),
        cycle.round() == v@ + u@,
        cycle.position() == 0,
{
    combine_vectors_explicit_return_type(v, u)
}

/// Twice each positive number of `numbers`, in order.
pub open spec fn doubled_positives(numbers: Seq<i32>) -> Seq<int>
    decreases numbers.len(),
{
    if numbers.len() == 0 {
        Seq::empty()
    } else {
        let before = doubled_positives(numbers.drop_last());
        if numbers.last() > 0 {
            before.push(2 * numbers.last())
        } else {
            before
        }
    }
}

/// The numbers of a list, read as mathematical integers.
pub open spec fn widened(numbers: Seq<i32>) -> Seq<int> {
    numbers.map_values(|n: i32| n as int)
}

/// Keeps the positive numbers and doubles them. The doubles must fit in an
/// `i32`.
pub fn double_positives(numbers: &Vec<i32>) -> (doubles: Vec<i32>)
    requires
        forall|i: int| 0 <= i < numbers@.len() ==> 2 * #[trigger] numbers@[i] <= i32::MAX,
    ensures
        widened(doubles@) == doubled_positives(numbers@),
{
    let mut doubles: Vec<i32> = Vec::new();
    let mut i: usize = 0;
    while i < numbers.len()
        invariant
            i <= numbers.len(),
            forall|k: int| 0 <= k < numbers@.len() ==> 2 * #[trigger] numbers@[k] <= i32::MAX,
            widened(doubles@) == doubled_positives(numbers@.take(i as int)),
        decreases numbers.len() - i,
    {
        let x = numbers[i];
        proof {
            assert(numbers@.take(i + 1).drop_last() =~= numbers@.take(i as int));
        }
        if x > 0 {
            doubles.push(x * 2);
            proof {
                assert(widened(doubles@) =~= doubled_positives(numbers@.take(i as int)).push(2 * x));
            }
        }
        i += 1;
    }
    proof {
        assert(numbers@.take(numbers.len() as int) =~= numbers@);
    }
    doubles
}

} // verus!
