//! The mathematical model of ripple-carry addition over bit sequences.
//!
//! Sequences are most significant bit first: index 0 carries the highest
//! weight and the last index the weight 1.

use vstd::prelude::*;
use vstd::arithmetic::power2::pow2;
use vstd::arithmetic::power2::lemma_pow2_unfold;
use crate::full_adder::bit;
use crate::full_adder::carry_bit;
use crate::full_adder::sum_bit;
use crate::full_adder::lemma_full_adder_counts;

verus! {

/// The unsigned number that a bit sequence denotes, most significant bit
/// first: the bit at index `i` weighs `2^(len - 1 - i)`.
pub open spec fn bits_value(s: Seq<bool>) -> nat
    decreases s.len(),
{
    if s.len() == 0 {
        0
    } else {
        bit(s[0]) * pow2((s.len() - 1) as nat) + bits_value(s.skip(1))
    }
}

/// The carry that leaves position `i` when `a` and `b` are added: the carry
/// into the last position is clear, and each position hands its carry-out
/// to the position before it.
pub open spec fn carry_from(a: Seq<bool>, b: Seq<bool>, i: int) -> bool
    decreases a.len() - i,
{
    if i < 0 || i >= a.len() {
        false
    } else {
        carry_bit(a[i], b[i], carry_from(a, b, i + 1))
    }
}

/// The bit sequence that ripple-carry addition yields for two operands of
/// equal length: the final carry at index 0, then the sum bit of operand
/// position `k - 1` at index `k`.
pub open spec fn ripple_sum(a: Seq<bool>, b: Seq<bool>) -> Seq<bool> {
    Seq::new(
        a.len() + 1,
        |k: int|
            if k == 0 {
                carry_from(a, b, 0)
            } else {
                sum_bit(a[k - 1], b[k - 1], carry_from(a, b, k))
            },
    )
}

/// The bytes of a sequence read as bits: a byte stands for a set bit
/// exactly when it is not zero.
pub open spec fn bytes_as_bits(s: Seq<u8>) -> Seq<bool> {
    Seq::new(s.len(), |i: int| s[i] != 0)
}

/// Dropping the leading position of both operands leaves the carries of the
/// remaining positions as they were.
proof fn lemma_carry_skip(a: Seq<bool>, b: Seq<bool>, i: int)
    requires
        a.len() == b.len(),
        a.len() > 0,
        0 <= i <= a.len() - 1,
    ensures
        carry_from(a.skip(1), b.skip(1), i) == carry_from(a, b, i + 1),
    decreases a.len() - i,
{
    if i < a.len() - 1 {
        lemma_carry_skip(a, b, i + 1);
    }
}

/// A sequence of `n` bits denotes a number below `2^n`.
pub proof fn lemma_bits_value_bound(s: Seq<bool>)
    ensures
        bits_value(s) < pow2(s.len()),
    decreases s.len(),
{
    if s.len() == 0 {
        vstd::arithmetic::power2::lemma2_to64();
    } else {
        lemma_bits_value_bound(s.skip(1));
        lemma_pow2_unfold(s.len());
    }
}

/// Ripple-carry addition is exact: the sequence it yields denotes the sum
/// of the numbers that the two operands denote.
pub proof fn lemma_ripple_sum_value(a: Seq<bool>, b: Seq<bool>)
    requires
        a.len() == b.len(),
    ensures
        ripple_sum(a, b).len() == a.len() + 1,
        bits_value(ripple_sum(a, b)) == bits_value(a) + bits_value(b),
    decreases a.len(),
{
    let r = ripple_sum(a, b);
    if a.len() == 0 {
        assert(!r[0]);
        assert(bits_value(r.skip(1)) == 0);
        assert(bits_value(r) == bit(r[0]) * pow2(0) + bits_value(r.skip(1)));
    } else {
        let n = a.len();
        let a1 = a.skip(1);
        let b1 = b.skip(1);
        let r1 = ripple_sum(a1, b1);
        lemma_ripple_sum_value(a1, b1);
        let c1 = carry_from(a, b, 1);
        assert(r1[0] == c1) by {
            lemma_carry_skip(a, b, 0);
        }
        assert(r.skip(1).skip(1) =~= r1.skip(1)) by {
            assert forall|k: int| 0 <= k < n - 1 implies r.skip(1).skip(1)[k] == r1.skip(1)[k] by {
                lemma_carry_skip(a, b, k + 1);
            }
        }
        lemma_full_adder_counts(a[0], b[0], c1);
        lemma_pow2_unfold(n);
        let w = pow2((n - 1) as nat);
        let rest = bits_value(r1.skip(1));
        assert(bits_value(r1) == bit(c1) * w + rest);
        assert(bits_value(a) == bit(a[0]) * w + bits_value(a1));
        assert(bits_value(b) == bit(b[0]) * w + bits_value(b1));
        assert(r.skip(1)[0] == sum_bit(a[0], b[0], c1));
        assert(r[0] == carry_bit(a[0], b[0], c1));
        assert(bits_value(r.skip(1)) == bit(r.skip(1)[0]) * w + rest);
        assert(bits_value(r) == bit(r[0]) * pow2(n) + bits_value(r.skip(1)));
        assert(bits_value(r) == bits_value(a) + bits_value(b)) by (nonlinear_arith)
            requires
                bits_value(r) == bit(r[0]) * pow2(n) + bits_value(r.skip(1)),
                bits_value(r.skip(1)) == bit(r.skip(1)[0]) * w + rest,
                bits_value(a) == bit(a[0]) * w + bits_value(a1),
                bits_value(b) == bit(b[0]) * w + bits_value(b1),
                bits_value(a1) + bits_value(b1) == bit(c1) * w + rest,
                pow2(n) == 2 * w,
                bit(r.skip(1)[0]) + 2 * bit(r[0]) == bit(a[0]) + bit(b[0]) + bit(c1),
        ;
    }
}

/// Adding an all-clear operand changes nothing: the result is the other
/// operand's bits behind a clear leading bit, whichever side the all-clear
/// operand stands on.
pub proof fn lemma_ripple_sum_zero(x: Seq<bool>, zero: Seq<bool>)
    requires
        zero.len() == x.len(),
        forall|i: int| 0 <= i < zero.len() ==> !zero[i],
    ensures
        ripple_sum(x, zero) == seq![false] + x,
        ripple_sum(zero, x) == seq![false] + x,
{
    assert forall|i: int| 0 <= i <= x.len() implies !carry_from(x, zero, i) && !carry_from(
        zero,
        x,
        i,
    ) by {
        lemma_no_carry_with_zero(x, zero, i);
    }
    assert(ripple_sum(x, zero) =~= seq![false] + x);
    assert(ripple_sum(zero, x) =~= seq![false] + x);
}

/// With one operand all clear, no position produces a carry.
proof fn lemma_no_carry_with_zero(x: Seq<bool>, zero: Seq<bool>, i: int)
    requires
        zero.len() == x.len(),
        forall|j: int| 0 <= j < zero.len() ==> !zero[j],
        0 <= i <= x.len(),
    ensures
        !carry_from(x, zero, i),
        !carry_from(zero, x, i),
    decreases x.len() - i,
{
    if i < x.len() {
        lemma_no_carry_with_zero(x, zero, i + 1);
    }
}

} // verus!
