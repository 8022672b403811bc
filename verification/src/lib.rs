//! Binary integer addition modelled as a chain of single-bit full adders.
//!
//! A [`BinInteger`] is a fixed-width vector of bits, most significant bit
//! first. Adding two of them drives a [`FullAdder`] once per bit position,
//! threading the carry from the least significant position upwards, and
//! yields a bit sequence one position wider than the operands.

pub mod full_adder;
pub mod integer;
pub mod ripple;

pub use full_adder::FullAdder;
pub use integer::BinInteger;
pub use integer::LengthMismatch;
