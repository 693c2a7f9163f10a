//! Arbitrary-precision scaling of the fixed-point fields, through
//! `num_bigfloat`. A scaled field is multiplied by its power of ten while still
//! exact, and only then narrowed by the caller; a figure is scaled back up the
//! same way before it is cut to a 128-bit integer.
use vstd::prelude::*;
use num_bigfloat::BigFloat;
use crate::request::Arguments;

verus! {

/// `num_bigfloat::BigFloat`, a decimal float with a 40-digit mantissa, held
/// opaque.
#[verifier::external_type_specification]
#[verifier::external_body]
pub struct ExBigFloat(BigFloat);

/// The decimal that `BigFloat::from_u32` makes of an integer.
pub uninterp spec fn whole_decimal(i: u32) -> BigFloat;

/// The decimal that `BigFloat::from_u8` makes of a byte.
pub uninterp spec fn u8_decimal(i: u8) -> BigFloat;

/// The decimal that `BigFloat::from_i16` makes of a 16-bit integer.
pub uninterp spec fn i16_decimal(i: i16) -> BigFloat;

/// The decimal that `BigFloat::from_u128` makes of a 128-bit integer.
pub uninterp spec fn u128_decimal(i: u128) -> BigFloat;

/// What `BigFloat::pow` returns.
pub uninterp spec fn power_of(base: BigFloat, exponent: BigFloat) -> BigFloat;

/// What `BigFloat::mul` returns.
pub uninterp spec fn product_of(a: BigFloat, b: BigFloat) -> BigFloat;

/// What `BigFloat::to_u128` returns.
pub uninterp spec fn integer_of(value: BigFloat) -> Option<u128>;

/// Relies on `BigFloat::from_u32`: the exact value of a 32-bit integer, a
/// function of the integer alone.
pub assume_specification[ BigFloat::from_u32 ](i: u32) -> (r: BigFloat)
    ensures
        r == whole_decimal(i),
;

/// Relies on `BigFloat::from_u8`: the exact value of a byte, a function of
/// the byte alone.
pub assume_specification[ BigFloat::from_u8 ](i: u8) -> (r: BigFloat)
    ensures
        r == u8_decimal(i),
;

/// Relies on `BigFloat::from_i16`: the exact value of a 16-bit integer, a
/// function of the integer alone.
pub assume_specification[ BigFloat::from_i16 ](i: i16) -> (r: BigFloat)
    ensures
        r == i16_decimal(i),
;

/// Relies on `BigFloat::from_u128`: the exact value of a 128-bit integer (39
/// digits at most, within the 40-digit mantissa), a function of the integer
/// alone.
pub assume_specification[ BigFloat::from_u128 ](i: u128) -> (r: BigFloat)
    ensures
        r == u128_decimal(i),
;

/// Relies on `BigFloat::pow`: a function of its two operands, which returns
/// NaN or infinity rather than panic; every call here raises to an integer
/// power, the integer-power path.
pub assume_specification[ BigFloat::pow ](this: &BigFloat, d1: &BigFloat) -> (r: BigFloat)
    ensures
        r == power_of(*this, *d1),
;

/// Relies on `BigFloat::mul`: a function of its two operands, normalized,
/// which returns NaN or infinity on overflow rather than panic.
pub assume_specification[ BigFloat::mul ](this: &BigFloat, d2: &BigFloat) -> (r: BigFloat)
    ensures
        r == product_of(*this, *d2),
;

/// Relies on `BigFloat::mul` and then `BigFloat::to_u128`: the integer part of
/// the absolute value of the product, or `None` for a NaN, an infinity or a
/// value beyond 128 bits. `to_u128` is reached only with a product, which
/// `mul` has normalized as `to_u128` needs to run without panic.
#[verifier::external_body]
fn integer_of_product(value: &BigFloat, factor: &BigFloat) -> (r: Option<u128>)
    ensures
        r == integer_of(product_of(*value, *factor)),
{
    value.mul(factor).to_u128()
}

/// `10^power`.
pub open spec fn ten_to(power: i16) -> BigFloat {
    power_of(u8_decimal(10), i16_decimal(power))
}

/// `raw * 10^power`.
pub open spec fn decimal_of(raw: u128, power: i16) -> BigFloat {
    product_of(u128_decimal(raw), ten_to(power))
}

/// The integer part of `value * 10^power`, if it has a 128-bit value.
pub open spec fn scaled_of(value: BigFloat, power: i16) -> Option<u128> {
    integer_of(product_of(value, ten_to(power)))
}

fn power_of_ten(power: i16) -> (r: BigFloat)
    ensures
        r == ten_to(power),
{
    BigFloat::from_u8(10).pow(&BigFloat::from_i16(power))
}

fn scaled_decimal(raw: u128, power: i16) -> (r: BigFloat)
    ensures
        r == decimal_of(raw, power),
{
    BigFloat::from_u128(raw).mul(&power_of_ten(power))
}

fn scale_to_integer(value: &BigFloat, power: i16) -> (r: Option<u128>)
    ensures
        r == scaled_of(*value, power),
{
    integer_of_product(value, &power_of_ten(power))
}

/// The scaled fields of a request as exact decimals.
pub struct Decimals {
    pub expiry_seconds: BigFloat,
    pub discount: BigFloat,
    pub volatility: BigFloat,
    pub forward: BigFloat,
    pub strike: BigFloat,
}

/// The power of ten that decodes a field: `-exponent`, widened first so that
/// `-(-128)` is `128`.
pub open spec fn decoding_power(exponent: i8) -> i16 {
    (-(exponent as i16)) as i16
}

/// The integer part of `value * 10^exponent`, where it has a 128-bit value.
pub fn scaled_integer(value: &BigFloat, exponent: i8) -> (r: Option<u128>)
    ensures
        r == scaled_of(*value, exponent as i16),
{
    scale_to_integer(value, exponent as i16)
}

/// The fields of a request as exact decimals: the expiry unscaled, each
/// scaled field its raw integer times `10^(-exponent)`.
pub fn decimals(args: &Arguments) -> (r: Decimals)
    ensures
        r.expiry_seconds == whole_decimal(args.expiry_seconds),
        r.discount == decimal_of(args.discount as u128, decoding_power(args.exponent)),
        r.volatility == decimal_of(args.volatility, decoding_power(args.exponent)),
        r.forward == decimal_of(args.forward, decoding_power(args.exponent)),
        r.strike == decimal_of(args.strike, decoding_power(args.exponent)),
{
    let power: i16 = -(args.exponent as i16);
    Decimals {
        expiry_seconds: BigFloat::from_u32(args.expiry_seconds),
        discount: scaled_decimal(args.discount as u128, power),
        volatility: scaled_decimal(args.volatility, power),
        forward: scaled_decimal(args.forward, power),
        strike: scaled_decimal(args.strike, power),
    }
}

} // verus!
