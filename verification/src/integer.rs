//! Fixed-width binary integers and their ripple-carry addition.

use vstd::prelude::*;
use vstd::std_specs::cmp::PartialEqSpec;
use vstd::std_specs::convert::FromSpecImpl;
use vstd::std_specs::convert::TryFromSpecImpl;
use vstd::std_specs::ops::AddSpecImpl;
use crate::full_adder::FullAdder;
use crate::ripple::bits_value;
use crate::ripple::bytes_as_bits;
use crate::ripple::carry_from;
use crate::ripple::lemma_ripple_sum_value;
use crate::ripple::ripple_sum;

verus! {

/// Binary integer implementation where N is the number of underlying bits.
///
/// The bits are stored most significant bit first.
#[derive(Debug)]
pub struct BinInteger<const N: usize>([bool; N]);

/// The error of building a [`BinInteger`] from a bit sequence whose length
/// is not the integer's width.
#[derive(Debug, Clone, Copy, PartialEq, Eq, Structural)]
pub struct LengthMismatch {
    /// The width of the integer that was asked for.
    pub expected: usize,
    /// The length of the sequence that was given.
    pub found: usize,
}

impl<const N: usize> View for BinInteger<N> {
    type V = Seq<bool>;

    /// The bits of the integer, most significant bit first.
    closed spec fn view(&self) -> Seq<bool> {
        self.0@
    }
}

impl<const N: usize> BinInteger<N> {
    /// The unsigned number that the integer denotes.
    pub open spec fn value(&self) -> nat {
        bits_value(self@)
    }

    /// The integer that holds the given bits, where they are `N` in
    /// number.
    pub open spec fn with_bits(bits: Seq<bool>) -> Self {
        choose|r: Self| r@ == bits
    }

    /// An integer holds exactly `N` bits.
    pub broadcast proof fn lemma_width(&self)
        ensures
            #[trigger] self@.len() == N,
    {
    }

    /// Two integers with the same bits are the same integer.
    pub proof fn lemma_same_bits(&self, other: &Self)
        requires
            self@ == other@,
        ensures
            *self == *other,
    {
        assert forall|i: int| 0 <= i < N implies self.0[i] == other.0[i] by {
            assert(self.0@[i] == other.0@[i]);
        }
        assert(self.0 =~= other.0);
    }

    /// Every sequence of `N` bits is held by some integer of width `N`,
    /// and `with_bits` names it.
    pub proof fn lemma_with_bits(bits: Seq<bool>)
        requires
            bits.len() == N,
        ensures
            Self::with_bits(bits)@ == bits,
    {
        let n = N as nat;
        Self::lemma_prefix_held(bits, n);
        let r = choose|r: Self| r.holds_prefix(bits, n);
        assert(r@ =~= bits);
    }

    /// Whether the integer agrees with `bits` on the first `k` positions.
    spec fn holds_prefix(&self, bits: Seq<bool>, k: nat) -> bool {
        forall|i: int| 0 <= i < k ==> self@[i] == bits[i]
    }

    /// Some integer agrees with `bits` on the first `k` positions.
    proof fn lemma_prefix_held(bits: Seq<bool>, k: nat)
        requires
            bits.len() == N,
            k <= N,
        ensures
            exists|r: Self| r.holds_prefix(bits, k),
        decreases k,
    {
        broadcast use vstd::array::group_array_axioms;

        if k == 0 {
            let r = BinInteger::<N>(vstd::array::spec_array_fill_for_copy_type::<bool, N>(false));
            assert(r.holds_prefix(bits, k));
        } else {
            let j = (k - 1) as nat;
            Self::lemma_prefix_held(bits, j);
            let p = choose|p: Self| p.holds_prefix(bits, j);
            let r = BinInteger::<N>(vstd::array::spec_array_update(p.0, j as int, bits[j as int]));
            assert(r@ == p@.update(j as int, bits[j as int]));
            assert(r.holds_prefix(bits, k));
        }
    }

    /// Builds the integer that holds the given bits.
    pub fn new(bits: [bool; N]) -> (r: BinInteger<N>)
        ensures
            r@ == bits@,
    {
        Self(bits)
    }
}

impl<const N: usize> FromSpecImpl<[u8; N]> for BinInteger<N> {
    open spec fn obeys_from_spec() -> bool {
        true
    }

    /// The integer whose bit at each position is set exactly when the byte
    /// at that position is not zero.
    open spec fn from_spec(v: [u8; N]) -> Self {
        Self::with_bits(bytes_as_bits(v@))
    }
}

impl<const N: usize> From<[u8; N]> for BinInteger<N> {
    /// Builds the integer from one byte per bit: zero is a clear bit, any
    /// other byte a set bit.
    fn from(bytes: [u8; N]) -> (r: BinInteger<N>)
        ensures
            r@ == bytes_as_bits(bytes@),
    {
        let mut repr: [bool; N] = [false; N];
        let mut i: usize = 0;
        while i < N
            invariant
                i <= N,
                forall|k: int| 0 <= k < i ==> repr@[k] == (bytes@[k] != 0),
            decreases N - i,
        {
            repr[i] = bytes[i] != 0;
            i = i + 1;
        }
        let r = Self(repr);
        proof {
            assert(r@ =~= bytes_as_bits(bytes@));
            r.lemma_same_bits(&Self::with_bits(bytes_as_bits(bytes@)));
        }
        r
    }
}

impl<const N: usize> TryFromSpecImpl<Vec<bool>> for BinInteger<N> {
    open spec fn obeys_try_from_spec() -> bool {
        true
    }

    /// The integer that holds the bits of `v` in order where `v` has `N`
    /// bits, and the two lengths otherwise.
    open spec fn try_from_spec(v: Vec<bool>) -> Result<Self, LengthMismatch> {
        if v@.len() == N {
            Ok(Self::with_bits(v@))
        } else {
            Err(LengthMismatch { expected: N, found: v@.len() as usize })
        }
    }
}

impl<const N: usize> TryFrom<Vec<bool>> for BinInteger<N> {
    type Error = LengthMismatch;

    /// Reads a bit sequence as an integer of width `N`.
    ///
    /// Succeeds exactly when the sequence has `N` bits, and then keeps them
    /// in order. A sequence of any other length is refused, never padded
    /// or truncated.
    fn try_from(v: Vec<bool>) -> (r: Result<BinInteger<N>, LengthMismatch>)
        ensures
            r is Ok <==> v@.len() == N,
            r matches Ok(x) ==> x@ == v@,
            r matches Err(e) ==> e.expected == N && e.found == v@.len(),
    {
        if v.len() != N {
            return Err(LengthMismatch { expected: N, found: v.len() });
        }
        let mut repr: [bool; N] = [false; N];
        let mut i: usize = 0;
        while i < N
            invariant
                i <= N,
                v@.len() == N,
                forall|k: int| 0 <= k < i ==> repr@[k] == v@[k],
            decreases N - i,
        {
            repr[i] = v[i];
            i = i + 1;
        }
        let x = Self(repr);
        proof {
            assert(x@ =~= v@);
            x.lemma_same_bits(&Self::with_bits(v@));
        }
        Ok(x)
    }
}

impl<const N: usize> vstd::std_specs::cmp::PartialEqSpecImpl for BinInteger<N> {
    open spec fn obeys_eq_spec() -> bool {
        true
    }

    /// Two integers of one width are equal exactly when they hold the same
    /// bits.
    open spec fn eq_spec(&self, other: &Self) -> bool {
        self@ == other@
    }
}

impl<const N: usize> PartialEq for BinInteger<N> {
    fn eq(&self, other: &Self) -> (r: bool) {
        let mut i: usize = 0;
        while i < N
            invariant
                i <= N,
                forall|k: int| 0 <= k < i ==> self@[k] == other@[k],
            decreases N - i,
        {
            if self.0[i] != other.0[i] {
                return false;
            }
            i = i + 1;
        }
        proof {
            assert(self@ =~= other@);
        }
        true
    }
}

impl<const N: usize> Eq for BinInteger<N> {}

impl<const N: usize> BinInteger<N> {
    /// Two integers of one width are equal if and only if all corresponding
    /// bits are equal, and then they are the same value.
    pub proof fn lemma_eq_bitwise(&self, other: &Self)
        ensures
            self.eq_spec(other) <==> (forall|i: int| 0 <= i < N ==> self@[i] == other@[i]),
            self.eq_spec(other) <==> *self == *other,
    {
        if forall|i: int| 0 <= i < N ==> self@[i] == other@[i] {
            assert(self@ =~= other@);
        }
        if self@ == other@ {
            self.lemma_same_bits(other);
        }
    }
}

impl<const N: usize> AddSpecImpl for BinInteger<N> {
    /// The sum is a `Vec`, which contracts describe by its view, so `add`
    /// states its result over the view and `add_spec` stays unused.
    open spec fn obeys_add_spec() -> bool {
        false
    }

    /// Addition is total: operands of one type have one width.
    open spec fn add_req(self, rhs: Self) -> bool {
        true
    }

    open spec fn add_spec(self, rhs: Self) -> Vec<bool> {
        arbitrary()
    }
}

impl<const N: usize> std::ops::Add for BinInteger<N> {
    type Output = Vec<bool>;

    /// Adds two integers of the same width by ripple carry.
    ///
    /// The result has `N + 1` bits: the final carry at index 0, then the
    /// `N` sum bits from most to least significant. It denotes the exact
    /// sum of the two operands.
    fn add(self, rhs: Self) -> (out: Vec<bool>)
        ensures
            out@ == ripple_sum(self@, rhs@),
            out@.len() == N + 1,
            bits_value(out@) == self.value() + rhs.value(),
    {
        // Filled bit by bit, so that no width is left out for the sake of
        // computing `N + 1`.
        let mut out: Vec<bool> = Vec::new();
        out.push(false);
        let mut filled: usize = 0;
        while filled < N
            invariant
                filled <= N,
                out@.len() == filled + 1,
            decreases N - filled,
        {
            out.push(false);
            filled = filled + 1;
        }
        let mut carry: bool = false;
        let mut i: usize = N;
        while i > 0
            invariant
                i <= N,
                self@.len() == N,
                rhs@.len() == N,
                out@.len() == N + 1,
                carry == carry_from(self@, rhs@, i as int),
                forall|k: int| i < k <= N ==> out@[k] == ripple_sum(self@, rhs@)[k],
            decreases i,
        {
            i = i - 1;
            let (sum, carry_out) = FullAdder::add(self.0[i], rhs.0[i], carry);
            out[i + 1] = sum;
            carry = carry_out;
        }
        out[0] = carry;
        proof {
            assert(out@ =~= ripple_sum(self@, rhs@));
            lemma_ripple_sum_value(self@, rhs@);
        }
        out
    }
}

} // verus!
