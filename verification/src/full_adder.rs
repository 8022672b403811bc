//! The single-bit full adder: three input bits, a sum bit and a carry-out bit.

use vstd::prelude::*;

verus! {

/// The numeric weight of one bit: 1 for `true`, 0 for `false`.
pub open spec fn bit(b: bool) -> nat {
    if b {
        1
    } else {
        0
    }
}

/// How many of the three inputs of a full adder are set.
pub open spec fn ones(a: bool, b: bool, cin: bool) -> nat {
    bit(a) + bit(b) + bit(cin)
}

/// The sum output: set exactly when an odd number of inputs are set.
pub open spec fn sum_bit(a: bool, b: bool, cin: bool) -> bool {
    ones(a, b, cin) % 2 == 1
}

/// The carry output: set exactly when at least two inputs are set.
pub open spec fn carry_bit(a: bool, b: bool, cin: bool) -> bool {
    ones(a, b, cin) >= 2
}

/// A stateless one-bit full adder circuit.
pub struct FullAdder;

impl FullAdder {
    /// Adds bit `a`, bit `b` and the carry-in bit.
    ///
    /// Returns the output bit and the carry-out bit, each computed as a
    /// disjunction of the input rows on which it is set.
    pub fn add(a: bool, b: bool, cin: bool) -> (out: (bool, bool))
        ensures
            out.0 == sum_bit(a, b, cin),
            out.1 == carry_bit(a, b, cin),
    {
        (
            (a && b && cin) || (a && !b && !cin) || (!a && b && !cin) || (!a && !b && cin),
            (a && b && cin) || (a && b && !cin) || (a && !b && cin) || (!a && b && cin),
        )
    }
}

/// The two outputs of a full adder, read as a two-bit number with the carry
/// as the high bit, count the inputs that are set.
pub proof fn lemma_full_adder_counts(a: bool, b: bool, cin: bool)
    ensures
        bit(sum_bit(a, b, cin)) + 2 * bit(carry_bit(a, b, cin)) == ones(a, b, cin),
{
}

/// The full truth table of the adder: for each of the eight input rows, the
/// sum bit and the carry bit.
pub proof fn lemma_full_adder_truth_table()
    ensures
        !sum_bit(false, false, false) && !carry_bit(false, false, false),
        sum_bit(false, false, true) && !carry_bit(false, false, true),
        sum_bit(false, true, false) && !carry_bit(false, true, false),
        !sum_bit(false, true, true) && carry_bit(false, true, true),
        sum_bit(true, false, false) && !carry_bit(true, false, false),
        !sum_bit(true, false, true) && carry_bit(true, false, true),
        !sum_bit(true, true, false) && carry_bit(true, true, false),
        sum_bit(true, true, true) && carry_bit(true, true, true),
{
}

} // verus!
