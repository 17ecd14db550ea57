//! Floating-point numbers, held as the bit patterns of IEEE 754 binary64
//! values. Their arithmetic is done by `rustc_apfloat`, in software and with
//! rounding to the nearest value, ties to even; this module names each result
//! and says of it only that it is the outcome of that operation.

use crate::lexer::numeral::float_shape;
use rustc_apfloat::ieee::Double;
use rustc_apfloat::Float;
use vstd::prelude::*;

verus! {

/// The bit in which a binary64 value holds its sign.
pub const SIGN_BIT: u64 = 0x8000_0000_0000_0000;

/// The binary64 value that a decimal literal denotes, where the text is one.
pub uninterp spec fn float_literal_value(text: Seq<char>) -> Option<u64>;

/// The binary64 value nearest to an integer.
pub uninterp spec fn float_of_int(value: i64) -> u64;

/// The sum of two binary64 values.
pub uninterp spec fn float_sum(left: u64, right: u64) -> u64;

/// The difference of two binary64 values.
pub uninterp spec fn float_difference(left: u64, right: u64) -> u64;

/// The product of two binary64 values.
pub uninterp spec fn float_product(left: u64, right: u64) -> u64;

/// The quotient of two binary64 values.
pub uninterp spec fn float_quotient(left: u64, right: u64) -> u64;

/// The remainder of dividing one binary64 value by another, with the sign of
/// the dividend.
pub uninterp spec fn float_remainder(left: u64, right: u64) -> u64;

/// Whether a bit pattern is one of the two zeros.
pub open spec fn is_zero(bits: u64) -> bool {
    bits == 0 || bits == SIGN_BIT
}

/// The bit pattern with its sign flipped.
pub open spec fn negation(bits: u64) -> u64 {
    bits ^ SIGN_BIT
}

/// Whether a value is zero, positive or negative.
pub fn float_is_zero(bits: u64) -> (zero: bool)
    ensures
        zero == is_zero(bits),
{
    bits == 0 || bits == SIGN_BIT
}

/// The value with the opposite sign.
pub fn float_negate(bits: u64) -> (negated: u64)
    ensures
        negated == negation(bits),
{
    bits ^ SIGN_BIT
}

/// `<Double as FromStr>::from_str` reads a decimal literal and rounds it to
/// the nearest binary64 value; it fails on a text that it does not take for a
/// number. The contract names what it returns and claims nothing else; it is
/// asked about texts of the shape of a decimal literal only.
#[verifier::external_body]
pub(crate) fn float_from_literal(text: &str) -> (bits: Option<u64>)
    requires
        float_shape(text@),
    ensures
        bits == float_literal_value(text@),
{
    match text.parse::<Double>() {
        Ok(value) => Some(value.to_bits() as u64),
        Err(_) => None,
    }
}

/// `Double::from_i128` converts an integer to the nearest binary64 value. The
/// contract names the result and claims nothing else.
#[verifier::external_body]
pub(crate) fn float_from_int(value: i64) -> (bits: u64)
    ensures
        bits == float_of_int(value),
{
    Double::from_i128(value as i128).value.to_bits() as u64
}

/// `Double`'s `+` adds two values. The contract names the result and claims
/// nothing else.
#[verifier::external_body]
pub(crate) fn float_add(left: u64, right: u64) -> (bits: u64)
    ensures
        bits == float_sum(left, right),
{
    (Double::from_bits(left as u128) + Double::from_bits(right as u128)).value.to_bits() as u64
}

/// `Double`'s `-` subtracts the second value from the first. The contract
/// names the result and claims nothing else.
#[verifier::external_body]
pub(crate) fn float_subtract(left: u64, right: u64) -> (bits: u64)
    ensures
        bits == float_difference(left, right),
{
    (Double::from_bits(left as u128) - Double::from_bits(right as u128)).value.to_bits() as u64
}

/// `Double`'s `*` multiplies two values. The contract names the result and
/// claims nothing else.
#[verifier::external_body]
pub(crate) fn float_multiply(left: u64, right: u64) -> (bits: u64)
    ensures
        bits == float_product(left, right),
{
    (Double::from_bits(left as u128) * Double::from_bits(right as u128)).value.to_bits() as u64
}

/// `Double`'s `/` divides the first value by the second. The contract names
/// the result and claims nothing else.
#[verifier::external_body]
pub(crate) fn float_divide(left: u64, right: u64) -> (bits: u64)
    ensures
        bits == float_quotient(left, right),
{
    (Double::from_bits(left as u128) / Double::from_bits(right as u128)).value.to_bits() as u64
}

/// `Double`'s `%` is the remainder of C's `fmod`. The contract names the
/// result and claims nothing else.
#[verifier::external_body]
pub(crate) fn float_rem(left: u64, right: u64) -> (bits: u64)
    ensures
        bits == float_remainder(left, right),
{
    (Double::from_bits(left as u128) % Double::from_bits(right as u128)).value.to_bits() as u64
}

} // verus!
