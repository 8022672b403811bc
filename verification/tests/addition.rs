use bin_integer::BinInteger;
use bin_integer::LengthMismatch;

fn number(bits: &[bool]) -> u64 {
    let mut n = 0;
    for &b in bits {
        n = 2 * n + u64::from(b);
    }
    n
}

fn nibble(n: u64) -> [bool; 4] {
    [n & 8 != 0, n & 4 != 0, n & 2 != 0, n & 1 != 0]
}

#[test]
fn addition() {
    let a: BinInteger<8> = BinInteger::from([0, 0, 0, 0, 1, 1, 1, 1]);
    let b: BinInteger<8> = BinInteger::from([0, 0, 0, 0, 0, 0, 0, 1]);
    let result: BinInteger<9> = BinInteger::try_from(a + b).unwrap();
    let expected: BinInteger<9> = BinInteger::from([0, 0, 0, 0, 1, 0, 0, 0, 0]);

    assert_eq!(result, expected);
}

#[test]
fn addition_yields_raw_bits() {
    let a: BinInteger<8> = BinInteger::from([0, 0, 0, 0, 1, 1, 1, 1]);
    let b: BinInteger<8> = BinInteger::from([0, 0, 0, 0, 0, 0, 0, 1]);
    let sum = a + b;
    assert_eq!(sum, vec![false, false, false, false, true, false, false, false, false]);
    assert_eq!(number(&sum), 16);
}

#[test]
fn carry_ripples_through_every_position() {
    let a: BinInteger<4> = BinInteger::from([1, 1, 1, 1]);
    let b: BinInteger<4> = BinInteger::from([0, 0, 0, 1]);
    assert_eq!(a + b, vec![true, false, false, false, false]);
}

#[test]
fn carry_out_is_clear_without_overflow() {
    let a: BinInteger<4> = BinInteger::from([0, 1, 0, 1]);
    let b: BinInteger<4> = BinInteger::from([0, 0, 1, 1]);
    assert_eq!(a + b, vec![false, true, false, false, false]);
}

#[test]
fn largest_operands_give_largest_sum() {
    let a: BinInteger<4> = BinInteger::new([true; 4]);
    let b: BinInteger<4> = BinInteger::new([true; 4]);
    assert_eq!(a + b, vec![true, true, true, true, false]);
}

#[test]
fn every_four_bit_sum_is_exact() {
    for x in 0..16u64 {
        for y in 0..16u64 {
            let sum = BinInteger::new(nibble(x)) + BinInteger::new(nibble(y));
            assert_eq!(sum.len(), 5);
            assert_eq!(number(&sum), x + y);
        }
    }
}

#[test]
fn adding_zero_prepends_a_clear_bit() {
    let bits = [true, false, true, true, false, false, true, false];
    let zero: BinInteger<8> = BinInteger::new([false; 8]);
    let mut expected = vec![false];
    expected.extend_from_slice(&bits);
    assert_eq!(BinInteger::new(bits) + zero, expected);

    let zero: BinInteger<8> = BinInteger::new([false; 8]);
    assert_eq!(zero + BinInteger::new(bits), expected);
}

#[test]
fn zero_width_sum_is_a_single_clear_bit() {
    let a: BinInteger<0> = BinInteger::new([]);
    let b: BinInteger<0> = BinInteger::new([]);
    assert_eq!(a + b, vec![false]);
}

#[test]
fn one_bit_sums() {
    let sum = |x: bool, y: bool| BinInteger::new([x]) + BinInteger::new([y]);
    assert_eq!(sum(false, false), vec![false, false]);
    assert_eq!(sum(false, true), vec![false, true]);
    assert_eq!(sum(true, false), vec![false, true]);
    assert_eq!(sum(true, true), vec![true, false]);
}

#[test]
fn widening_keeps_bits_in_order() {
    let bits = vec![true, false, false, true, true];
    let wide: BinInteger<5> = BinInteger::try_from(bits).unwrap();
    assert_eq!(wide, BinInteger::new([true, false, false, true, true]));
    assert_ne!(wide, BinInteger::new([true, true, false, false, true]));
}

#[test]
fn widening_refuses_other_lengths() {
    let short: Result<BinInteger<5>, LengthMismatch> = BinInteger::try_from(vec![true; 4]);
    assert_eq!(short.unwrap_err(), LengthMismatch { expected: 5, found: 4 });

    let long: Result<BinInteger<5>, LengthMismatch> = BinInteger::try_from(vec![false; 6]);
    assert_eq!(long.unwrap_err(), LengthMismatch { expected: 5, found: 6 });

    let empty: Result<BinInteger<5>, LengthMismatch> = BinInteger::try_from(Vec::new());
    assert_eq!(empty.unwrap_err(), LengthMismatch { expected: 5, found: 0 });
}

#[test]
fn sum_widens_by_exactly_one_bit() {
    let a: BinInteger<8> = BinInteger::from([1, 0, 0, 0, 0, 0, 0, 0]);
    let b: BinInteger<8> = BinInteger::from([1, 0, 0, 0, 0, 0, 0, 0]);
    let same: Result<BinInteger<8>, LengthMismatch> = BinInteger::try_from(a + b);
    assert_eq!(same.unwrap_err(), LengthMismatch { expected: 8, found: 9 });
}

#[test]
fn any_nonzero_byte_is_a_set_bit() {
    let a: BinInteger<4> = BinInteger::from([0, 1, 2, 255]);
    assert_eq!(a, BinInteger::new([false, true, true, true]));
}

#[test]
fn equality_is_bitwise() {
    let a: BinInteger<3> = BinInteger::new([true, false, true]);
    assert!(a == BinInteger::new([true, false, true]));
    assert!(a != BinInteger::new([true, false, false]));
    assert!(a != BinInteger::new([false, false, true]));
    assert!(a != BinInteger::new([true, true, true]));
    let none: BinInteger<0> = BinInteger::new([]);
    assert!(none == BinInteger::new([]));
}
