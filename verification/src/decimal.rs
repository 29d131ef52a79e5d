//! Exact decimal arithmetic, done by the `rust_decimal` crate.
//!
//! A decimal is handled here by its two parts: a signed integer mantissa and
//! a scale, the number of digits behind the decimal point. Every function of
//! this module hands both parts to `rust_decimal`, lets it compute, and hands
//! the parts of the result back. Their contracts are taken on trust from the
//! crate's documentation and source; nothing in this module is proved.

use rust_decimal::Decimal;
use vstd::prelude::*;

verus! {

/// The largest magnitude of a decimal's mantissa: 2^96 - 1.
pub const MAX_MANTISSA: i128 = 79_228_162_514_264_337_593_543_950_335;

/// The largest scale of a decimal.
pub const MAX_SCALE: u32 = 28;

/// Whether a decimal with this mantissa and scale exists.
pub open spec fn representable(mantissa: int, scale: int) -> bool {
    -MAX_MANTISSA <= mantissa <= MAX_MANTISSA && 0 <= scale <= MAX_SCALE
}

/// Ten to the power of `n`.
pub open spec fn pow10(n: nat) -> nat
    decreases n,
{
    if n == 0 {
        1
    } else {
        10 * pow10((n - 1) as nat)
    }
}

/// `n / d` rounded to the nearest integer, a tie going to the even neighbour.
pub open spec fn round_half_even(n: nat, d: nat) -> nat
    recommends
        d > 0,
{
    let q = n / d;
    let r = n % d;
    if 2 * r > d || (2 * r == d && q % 2 == 1) {
        q + 1
    } else {
        q
    }
}

/// `Decimal + Decimal` on two decimals of one scale. Trusted: where the exact
/// sum still fits the mantissa, the crate returns it at the same scale and
/// does not panic.
#[verifier::external_body]
pub(crate) fn decimal_add(a: i128, b: i128, scale: u32) -> (r: (i128, u32))
    requires
        representable(a as int, scale as int),
        representable(b as int, scale as int),
        representable(a + b, scale as int),
    ensures
        r.0 == a + b,
        r.1 == scale,
{
    let sum = Decimal::from_i128_with_scale(a, scale) + Decimal::from_i128_with_scale(b, scale);
    (sum.mantissa(), sum.scale())
}

/// `Decimal - Decimal` on two decimals of one scale. Trusted: where the exact
/// difference still fits the mantissa, the crate returns it at the same scale
/// and does not panic.
#[verifier::external_body]
pub(crate) fn decimal_sub(a: i128, b: i128, scale: u32) -> (r: (i128, u32))
    requires
        representable(a as int, scale as int),
        representable(b as int, scale as int),
        representable(a - b, scale as int),
    ensures
        r.0 == a - b,
        r.1 == scale,
{
    let difference = Decimal::from_i128_with_scale(a, scale) - Decimal::from_i128_with_scale(b, scale);
    (difference.mantissa(), difference.scale())
}

/// `Decimal::abs`. Trusted: the crate clears the sign and keeps magnitude
/// and scale.
#[verifier::external_body]
pub(crate) fn decimal_abs(a: i128, scale: u32) -> (r: (i128, u32))
    requires
        representable(a as int, scale as int),
    ensures
        r.0 == (if a < 0 { -a } else { a as int }),
        r.1 == scale,
{
    let magnitude = Decimal::from_i128_with_scale(a, scale).abs();
    (magnitude.mantissa(), magnitude.scale())
}

/// `Decimal < Decimal` on two decimals of one scale. Trusted: the crate
/// orders decimals by their value, so at one scale by their mantissas.
#[verifier::external_body]
pub(crate) fn decimal_lt(a: i128, b: i128, scale: u32) -> (r: bool)
    requires
        representable(a as int, scale as int),
        representable(b as int, scale as int),
    ensures
        r == (a < b),
{
    Decimal::from_i128_with_scale(a, scale) < Decimal::from_i128_with_scale(b, scale)
}

/// `Decimal * Decimal`. Trusted: a product with a zero factor is the plain
/// zero of scale 0; otherwise, where the scales add up to a scale that exists
/// and the exact product fits the mantissa, the crate returns that product at
/// the sum of the scales and does not panic.
#[verifier::external_body]
pub(crate) fn decimal_mul(a: i128, a_scale: u32, b: i128, b_scale: u32) -> (r: (i128, u32))
    requires
        representable(a as int, a_scale as int),
        representable(b as int, b_scale as int),
        representable(a * b, a_scale + b_scale),
    ensures
        (a == 0 || b == 0) ==> r.0 == 0 && r.1 == 0,
        (a != 0 && b != 0) ==> r.0 == a * b && r.1 == a_scale + b_scale,
{
    let product = Decimal::from_i128_with_scale(a, a_scale) * Decimal::from_i128_with_scale(b, b_scale);
    (product.mantissa(), product.scale())
}

/// `Decimal::round_dp` on a decimal that is not negative. Trusted: a decimal
/// with no more than `dp` digits behind the point comes back as it is; one
/// with more is cut to `dp` digits and rounded to the nearest, a tie going to
/// the even neighbour.
#[verifier::external_body]
pub(crate) fn decimal_round_dp(a: i128, scale: u32, dp: u32) -> (r: (i128, u32))
    requires
        0 <= a,
        representable(a as int, scale as int),
    ensures
        scale <= dp ==> r.0 == a && r.1 == scale,
        scale > dp ==> r.0 == round_half_even(a as nat, pow10((scale - dp) as nat)) && r.1 == dp,
{
    let rounded = Decimal::from_i128_with_scale(a, scale).round_dp(dp);
    (rounded.mantissa(), rounded.scale())
}

} // verus!
