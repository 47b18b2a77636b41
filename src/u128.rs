//! Unsigned 128-bit integers: computed at their own width, and for the host
//! contract moved to 256 bits when a product does not fit.
use crate::fixed_point::{FixedPoint, IntegerValue};
use crate::rounding::{ceil_div, floor_div, lemma_floor_ceil_bracket, lemma_quotient_within};
use crate::soroban_fixed_point::SorobanFixedPoint;
use crate::u256::{is_u256, Uint256};
use soroban_sdk::Env;
use vstd::prelude::*;

verus! {

/// Whether `v` lies in the `u128` range.
pub open spec fn is_u128(v: int) -> bool {
    0 <= v <= u128::MAX
}

/// The product of two `u128` values always fits 256 bits.
pub proof fn lemma_product_fits_u256(x: u128, y: u128)
    ensures
        is_u256(x * y),
{
    assert(0 <= x * y < 0x1_0000_0000_0000_0000_0000_0000_0000_0000_0000_0000_0000_0000_0000_0000_0000_0000int)
        by (nonlinear_arith)
        requires
            0 <= x <= 0xffff_ffff_ffff_ffff_ffff_ffff_ffff_ffffint,
            0 <= y <= 0xffff_ffff_ffff_ffff_ffff_ffff_ffff_ffffint,
    ;
}

/// Performs `floor(x * y / z)`.
pub fn mul_div_floor(x: u128, y: u128, z: u128) -> (r: Option<u128>)
    ensures
        r == if z != 0 && is_u128(x * y) {
            Some(floor_div(x * y, z as int) as u128)
        } else {
            None
        },
        z != 0 ==> 0 <= floor_div(x * y, z as int) <= x * y,
{
    proof {
        if z != 0 {
            lemma_quotient_within(x * y, z as int);
        }
    }
    let r = x.checked_mul(y)?;
    r.checked_div(z)
}

/// Performs `ceil(x * y / z)`.
pub fn mul_div_ceil(x: u128, y: u128, z: u128) -> (r: Option<u128>)
    ensures
        r == if z != 0 && is_u128(x * y) {
            Some(ceil_div(x * y, z as int) as u128)
        } else {
            None
        },
        z != 0 ==> 0 <= ceil_div(x * y, z as int) <= x * y,
{
    proof {
        if z != 0 {
            lemma_quotient_within(x * y, z as int);
        }
    }
    let r = x.checked_mul(y)?;
    div_ceil(r, z)
}

/// Performs `ceil(r / z)`.
pub fn div_ceil(r: u128, z: u128) -> (q: Option<u128>)
    ensures
        q == if z != 0 {
            Some(ceil_div(r as int, z as int) as u128)
        } else {
            None
        },
        z != 0 ==> 0 <= ceil_div(r as int, z as int) <= r,
{
    // the quotient is not negative: truncation gives its floor
    let remainder = r.checked_rem_euclid(z)?;
    proof {
        lemma_quotient_within(r as int, z as int);
        lemma_floor_ceil_bracket(r as int, z as int);
        assert(floor_div(r as int, z as int) == r / z);
        assert((remainder > 0) == ((r as int) % (z as int) != 0));
        assert(ceil_div(r as int, z as int) == r / z + (if remainder > 0 { 1int } else { 0int }));
    }
    (r / z).checked_add(if remainder > 0 { 1 } else { 0 })
}

/// Performs `floor(x * y / z)`, moving to 256 bits when `x * y` does not fit.
fn scaled_mul_div_floor(x: &u128, env: &Env, y: &u128, z: &u128) -> (r: u128)
    requires
        *z != 0,
        is_u128(floor_div(*x * *y, *z as int)),
    ensures
        r == floor_div(*x * *y, *z as int),
{
    match x.checked_mul(*y) {
        Some(r) => r.checked_div(*z).unwrap(),
        None => {
            proof {
                lemma_product_fits_u256(*x, *y);
            }
            // scale to 256 bits and retry
            let res = crate::u256::mul_div_floor(
                env,
                &Uint256::from_u128(env, *x),
                &Uint256::from_u128(env, *y),
                &Uint256::from_u128(env, *z),
            );
            res.to_u128(env).unwrap()
        },
    }
}

/// Performs `ceil(x * y / z)`, moving to 256 bits when `x * y` does not fit.
fn scaled_mul_div_ceil(x: &u128, env: &Env, y: &u128, z: &u128) -> (r: u128)
    requires
        *z != 0,
        is_u128(ceil_div(*x * *y, *z as int)),
    ensures
        r == ceil_div(*x * *y, *z as int),
{
    match x.checked_mul(*y) {
        Some(r) => div_ceil(r, *z).unwrap(),
        None => {
            proof {
                lemma_product_fits_u256(*x, *y);
            }
            // scale to 256 bits and retry
            let res = crate::u256::mul_div_ceil(
                env,
                &Uint256::from_u128(env, *x),
                &Uint256::from_u128(env, *y),
                &Uint256::from_u128(env, *z),
            );
            res.to_u128(env).unwrap()
        },
    }
}

impl IntegerValue for u128 {
    open spec fn int_value(&self) -> int {
        *self as int
    }

    open spec fn in_range(v: int) -> bool {
        is_u128(v)
    }
}

impl FixedPoint for u128 {
    open spec fn product_fits(p: int) -> bool {
        is_u128(p)
    }

    fn fixed_mul_floor(self, y: u128, denominator: u128) -> (r: Option<u128>) {
        proof {
            if denominator != 0 {
                lemma_quotient_within(self * y, denominator as int);
            }
        }
        mul_div_floor(self, y, denominator)
    }

    fn fixed_mul_ceil(self, y: u128, denominator: u128) -> (r: Option<u128>) {
        proof {
            if denominator != 0 {
                lemma_quotient_within(self * y, denominator as int);
            }
        }
        mul_div_ceil(self, y, denominator)
    }

    fn fixed_div_floor(self, y: u128, denominator: u128) -> (r: Option<u128>) {
        proof {
            if y != 0 {
                lemma_quotient_within(self * denominator, y as int);
            }
        }
        mul_div_floor(self, denominator, y)
    }

    fn fixed_div_ceil(self, y: u128, denominator: u128) -> (r: Option<u128>) {
        proof {
            if y != 0 {
                lemma_quotient_within(self * denominator, y as int);
            }
        }
        mul_div_ceil(self, denominator, y)
    }
}

impl SorobanFixedPoint for u128 {
    open spec fn product_fits_wide(p: int) -> bool {
        is_u256(p)
    }

    fn fixed_mul_floor(&self, env: &Env, y: &u128, denominator: &u128) -> (r: u128) {
        scaled_mul_div_floor(self, env, y, denominator)
    }

    fn fixed_mul_ceil(&self, env: &Env, y: &u128, denominator: &u128) -> (r: u128) {
        scaled_mul_div_ceil(self, env, y, denominator)
    }

    fn fixed_div_floor(&self, env: &Env, y: &u128, denominator: &u128) -> (r: u128) {
        scaled_mul_div_floor(self, env, denominator, y)
    }

    fn fixed_div_ceil(&self, env: &Env, y: &u128, denominator: &u128) -> (r: u128) {
        scaled_mul_div_ceil(self, env, denominator, y)
    }
}

} // verus!
