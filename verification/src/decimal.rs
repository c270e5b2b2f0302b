//! The exact decimal type of prices and sizes.
//!
//! A decimal is carried through the library as an opaque value: nothing here
//! computes with it. The two conversions that decoding needs are made by
//! `rust_decimal` itself and are named, not described.

use rust_decimal::Decimal;
use vstd::prelude::*;

verus! {

/// `rust_decimal::Decimal`, opaque to the verifier.
#[verifier::external_type_specification]
#[verifier::external_body]
pub struct ExDecimal(rust_decimal::Decimal);

/// `Decimal` is `Copy`, and its derived `clone` returns the same value.
pub assume_specification[ <rust_decimal::Decimal as Clone>::clone ](
    d: &rust_decimal::Decimal,
) -> (r: rust_decimal::Decimal)
    ensures
        r == *d,
;

/// The decimal that `Decimal::from_i128_with_scale` builds from a mantissa
/// and a scale.
pub uninterp spec fn scaled_decimal(mantissa: int, scale: int) -> Decimal;

/// What `Decimal::from_str` reads in a text, in plain or in scientific
/// notation, if it accepts it.
pub uninterp spec fn parsed_decimal(text: Seq<char>) -> Option<Decimal>;

/// Largest absolute mantissa of a decimal: 96 bits.
pub const MAX_MANTISSA: i128 = 0x0000_0000_FFFF_FFFF_FFFF_FFFF_FFFF_FFFF;

/// Largest scale of a decimal.
pub const MAX_SCALE: u32 = 28;

/// Calls `Decimal::from_i128_with_scale`, which panics on a scale above 28
/// or a mantissa beyond 96 bits; both are excluded. The result is named by
/// `scaled_decimal`.
#[verifier::external_body]
pub(crate) fn decimal_from_parts(mantissa: i128, scale: u32) -> (d: Decimal)
    requires
        -MAX_MANTISSA <= mantissa <= MAX_MANTISSA,
        scale <= MAX_SCALE,
    ensures
        d == scaled_decimal(mantissa as int, scale as int),
{
    Decimal::from_i128_with_scale(mantissa, scale)
}

/// Calls `Decimal::from_str` and drops the error. The result is named by
/// `parsed_decimal`.
#[verifier::external_body]
pub(crate) fn parse_decimal(text: &str) -> (d: Option<Decimal>)
    ensures
        d == parsed_decimal(text@),
{
    <Decimal as std::str::FromStr>::from_str(text).ok()
}

/// The decimal that stands for a whole number, where one exists.
pub open spec fn spec_decimal_from_integer(n: int) -> Option<Decimal> {
    if -MAX_MANTISSA <= n <= MAX_MANTISSA {
        Some(scaled_decimal(n, 0))
    } else {
        None
    }
}

/// Converts a whole number into a decimal of scale zero; `None` where the
/// number does not fit in 96 bits.
pub fn decimal_from_integer(n: i128) -> (d: Option<Decimal>)
    ensures
        d == spec_decimal_from_integer(n as int),
{
    if -MAX_MANTISSA <= n && n <= MAX_MANTISSA {
        Some(decimal_from_parts(n, 0))
    } else {
        None
    }
}

} // verus!
