//! Signed 128-bit integers: computed at their own width, and for the host
//! contract moved to 256 bits when a product does not fit.
use crate::fixed_point::{FixedPoint, IntegerValue};
use crate::i256::{is_i256, Int256};
use crate::rounding::{ceil_div, floor_div, lemma_floor_ceil_bracket, lemma_rounding_from_trunc};
use crate::soroban_fixed_point::SorobanFixedPoint;
use soroban_sdk::Env;
use vstd::prelude::*;

verus! {

/// Whether `v` lies in the `i128` range.
pub open spec fn is_i128(v: int) -> bool {
    i128::MIN <= v <= i128::MAX
}

/// The recoverable result of `floor(x * y / z)` at 128 bits.
pub open spec fn mul_floor_result(x: int, y: int, z: int) -> Option<i128> {
    if z != 0 && is_i128(x * y) && is_i128(floor_div(x * y, z)) {
        Some(floor_div(x * y, z) as i128)
    } else {
        None
    }
}

/// The recoverable result of `ceil(x * y / z)` at 128 bits.
pub open spec fn mul_ceil_result(x: int, y: int, z: int) -> Option<i128> {
    if z != 0 && is_i128(x * y) && is_i128(ceil_div(x * y, z)) {
        Some(ceil_div(x * y, z) as i128)
    } else {
        None
    }
}

/// The product of two `i128` values always fits 256 bits.
pub proof fn lemma_product_fits_i256(x: i128, y: i128)
    ensures
        is_i256(x * y),
{
    assert(-0x4000_0000_0000_0000_0000_0000_0000_0000_0000_0000_0000_0000_0000_0000_0000_0000int
        <= x * y <= 0x4000_0000_0000_0000_0000_0000_0000_0000_0000_0000_0000_0000_0000_0000_0000_0000int)
        by (nonlinear_arith)
        requires
            -0x8000_0000_0000_0000_0000_0000_0000_0000int <= x
                <= 0x7fff_ffff_ffff_ffff_ffff_ffff_ffff_ffffint,
            -0x8000_0000_0000_0000_0000_0000_0000_0000int <= y
                <= 0x7fff_ffff_ffff_ffff_ffff_ffff_ffff_ffffint,
    ;
}

/// Performs `floor(x * y / z)`.
pub fn mul_div_floor(x: i128, y: i128, z: i128) -> (r: Option<i128>)
    ensures
        r == mul_floor_result(x as int, y as int, z as int),
{
    let r = x.checked_mul(y)?;
    div_floor(r, z)
}

/// Performs `floor(r / z)`.
pub fn div_floor(r: i128, z: i128) -> (q: Option<i128>)
    ensures
        q == if z != 0 && is_i128(floor_div(r as int, z as int)) {
            Some(floor_div(r as int, z as int) as i128)
        } else {
            None
        },
{
    if z == 0 {
        return None;
    }
    proof {
        lemma_rounding_from_trunc(r as int, z as int);
        lemma_floor_ceil_bracket(r as int, z as int);
    }
    if (r < 0 && z > 0) || (r > 0 && z < 0) {
        // the quotient is negative: truncation gave its ceiling
        let remainder = r.checked_rem_euclid(z)?;
        let truncated = r.checked_div(z)?;
        truncated.checked_sub(if remainder > 0 { 1 } else { 0 })
    } else {
        // the quotient is not negative: truncation gave its floor
        r.checked_div(z)
    }
}

/// Performs `ceil(x * y / z)`.
pub fn mul_div_ceil(x: i128, y: i128, z: i128) -> (r: Option<i128>)
    ensures
        r == mul_ceil_result(x as int, y as int, z as int),
{
    let r = x.checked_mul(y)?;
    div_ceil(r, z)
}

/// Performs `ceil(r / z)`.
pub fn div_ceil(r: i128, z: i128) -> (q: Option<i128>)
    ensures
        q == if z != 0 && is_i128(ceil_div(r as int, z as int)) {
            Some(ceil_div(r as int, z as int) as i128)
        } else {
            None
        },
{
    if z == 0 {
        return None;
    }
    proof {
        lemma_rounding_from_trunc(r as int, z as int);
        lemma_floor_ceil_bracket(r as int, z as int);
    }
    if (r > 0 && z > 0) || (r < 0 && z < 0) {
        // the quotient is positive: truncation gave its floor
        proof {
            if r == i128::MIN && z == -1 {
                assert(-(i128::MIN as int) / 1 == -(i128::MIN as int));
                assert(ceil_div(r as int, z as int) == -(i128::MIN as int));
            }
        }
        let remainder = r.checked_rem_euclid(z)?;
        let truncated = r.checked_div(z)?;
        truncated.checked_add(if remainder > 0 { 1 } else { 0 })
    } else {
        // the quotient is not positive: truncation gave its ceiling
        r.checked_div(z)
    }
}

/// Performs `floor(x * y / z)`, moving to 256 bits when `x * y` does not fit.
fn scaled_mul_div_floor(x: &i128, env: &Env, y: &i128, z: &i128) -> (r: i128)
    requires
        *z != 0,
        is_i128(floor_div(*x * *y, *z as int)),
    ensures
        r == floor_div(*x * *y, *z as int),
{
    match x.checked_mul(*y) {
        Some(r) => div_floor(r, *z).unwrap(),
        None => {
            proof {
                lemma_product_fits_i256(*x, *y);
            }
            // scale to 256 bits and retry
            let res = crate::i256::mul_div_floor(
                env,
                &Int256::from_i128(env, *x),
                &Int256::from_i128(env, *y),
                &Int256::from_i128(env, *z),
            );
            res.to_i128(env).unwrap()
        },
    }
}

/// Performs `ceil(x * y / z)`, moving to 256 bits when `x * y` does not fit.
fn scaled_mul_div_ceil(x: &i128, env: &Env, y: &i128, z: &i128) -> (r: i128)
    requires
        *z != 0,
        is_i128(ceil_div(*x * *y, *z as int)),
    ensures
        r == ceil_div(*x * *y, *z as int),
{
    match x.checked_mul(*y) {
        Some(r) => div_ceil(r, *z).unwrap(),
        None => {
            proof {
                lemma_product_fits_i256(*x, *y);
            }
            // scale to 256 bits and retry
            let res = crate::i256::mul_div_ceil(
                env,
                &Int256::from_i128(env, *x),
                &Int256::from_i128(env, *y),
                &Int256::from_i128(env, *z),
            );
            res.to_i128(env).unwrap()
        },
    }
}

impl IntegerValue for i128 {
    open spec fn int_value(&self) -> int {
        *self as int
    }

    open spec fn in_range(v: int) -> bool {
        is_i128(v)
    }
}

impl FixedPoint for i128 {
    open spec fn product_fits(p: int) -> bool {
        is_i128(p)
    }

    fn fixed_mul_floor(self, y: i128, denominator: i128) -> (r: Option<i128>) {
        mul_div_floor(self, y, denominator)
    }

    fn fixed_mul_ceil(self, y: i128, denominator: i128) -> (r: Option<i128>) {
        mul_div_ceil(self, y, denominator)
    }

    fn fixed_div_floor(self, y: i128, denominator: i128) -> (r: Option<i128>) {
        mul_div_floor(self, denominator, y)
    }

    fn fixed_div_ceil(self, y: i128, denominator: i128) -> (r: Option<i128>) {
        mul_div_ceil(self, denominator, y)
    }
}

impl SorobanFixedPoint for i128 {
    open spec fn product_fits_wide(p: int) -> bool {
        is_i256(p)
    }

    fn fixed_mul_floor(&self, env: &Env, y: &i128, denominator: &i128) -> (r: i128) {
        scaled_mul_div_floor(self, env, y, denominator)
    }

    fn fixed_mul_ceil(&self, env: &Env, y: &i128, denominator: &i128) -> (r: i128) {
        scaled_mul_div_ceil(self, env, y, denominator)
    }

    fn fixed_div_floor(&self, env: &Env, y: &i128, denominator: &i128) -> (r: i128) {
        scaled_mul_div_floor(self, env, denominator, y)
    }

    fn fixed_div_ceil(&self, env: &Env, y: &i128, denominator: &i128) -> (r: i128) {
        scaled_mul_div_ceil(self, env, denominator, y)
    }
}

} // verus!
