//! Unsigned 64-bit integers: computed at their own width, and moved to 128
//! bits when a product does not fit.
use crate::fixed_point::{FixedPoint, IntegerValue};
use crate::rounding::{ceil_div, floor_div, lemma_floor_ceil_bracket, lemma_quotient_within};
use crate::u128::is_u128;
use vstd::arithmetic::div_mod::lemma_fundamental_div_mod;
use vstd::prelude::*;

verus! {

/// Whether `v` lies in the `u64` range.
pub open spec fn is_u64(v: int) -> bool {
    0 <= v <= u64::MAX
}

/// The product of two `u64` values always fits 128 bits.
pub proof fn lemma_product_fits_u128(x: u64, y: u64)
    ensures
        is_u128(x * y),
{
    assert(0 <= x * y <= 0xffff_ffff_ffff_ffff_ffff_ffff_ffff_ffffint) by (nonlinear_arith)
        requires
            0 <= x <= 0xffff_ffff_ffff_ffffint,
            0 <= y <= 0xffff_ffff_ffff_ffffint,
    ;
}

/// Performs `floor(x * y / z)`.
pub fn mul_div_floor(x: u64, y: u64, z: u64) -> (r: Option<u64>)
    ensures
        r == if z != 0 && is_u64(floor_div(x * y, z as int)) {
            Some(floor_div(x * y, z as int) as u64)
        } else {
            None
        },
{
    match x.checked_mul(y) {
        Some(r) => {
            proof {
                if z != 0 {
                    lemma_floor_ceil_bracket(r as int, z as int);
                    assert(r / z <= r) by (nonlinear_arith)
                        requires z > 0, r >= 0;
                }
            }
            r.checked_div(z)
        },
        None => {
            proof {
                lemma_product_fits_u128(x, y);
                if z != 0 {
                    lemma_quotient_within(x * y, z as int);
                }
            }
            let res_u128 = crate::u128::mul_div_floor(x as u128, y as u128, z as u128)?;
            if res_u128 > u64::MAX as u128 {
                return None;
            }
            Some(res_u128 as u64)
        },
    }
}

/// Performs `ceil(x * y / z)`.
pub fn mul_div_ceil(x: u64, y: u64, z: u64) -> (r: Option<u64>)
    ensures
        r == if z != 0 && is_u64(ceil_div(x * y, z as int)) {
            Some(ceil_div(x * y, z as int) as u64)
        } else {
            None
        },
{
    match x.checked_mul(y) {
        Some(r) => {
            // the quotient is not negative: truncation gives its floor
            let remainder = r.checked_rem_euclid(z)?;
            proof {
                lemma_floor_ceil_bracket(r as int, z as int);
                lemma_fundamental_div_mod(r as int, z as int);
                assert(floor_div(r as int, z as int) == r / z);
                assert(r / z <= r && (remainder > 0 ==> r / z < r)) by (nonlinear_arith)
                    requires z > 0, r >= 0, r == z * (r / z) + remainder, 0 <= remainder < z;
                assert(ceil_div(r as int, z as int) == r / z + (if remainder > 0 { 1int } else { 0int }));
            }
            (r / z).checked_add(if remainder > 0 { 1 } else { 0 })
        },
        None => {
            proof {
                lemma_product_fits_u128(x, y);
                if z != 0 {
                    lemma_quotient_within(x * y, z as int);
                }
            }
            let res_u128 = crate::u128::mul_div_ceil(x as u128, y as u128, z as u128)?;
            if res_u128 > u64::MAX as u128 {
                return None;
            }
            Some(res_u128 as u64)
        },
    }
}

impl IntegerValue for u64 {
    open spec fn int_value(&self) -> int {
        *self as int
    }

    open spec fn in_range(v: int) -> bool {
        is_u64(v)
    }
}

impl FixedPoint for u64 {
    open spec fn product_fits(p: int) -> bool {
        is_u128(p)
    }

    fn fixed_mul_floor(self, y: u64, denominator: u64) -> (r: Option<u64>) {
        proof {
            lemma_product_fits_u128(self, y);
        }
        mul_div_floor(self, y, denominator)
    }

    fn fixed_mul_ceil(self, y: u64, denominator: u64) -> (r: Option<u64>) {
        proof {
            lemma_product_fits_u128(self, y);
        }
        mul_div_ceil(self, y, denominator)
    }

    fn fixed_div_floor(self, y: u64, denominator: u64) -> (r: Option<u64>) {
        proof {
            lemma_product_fits_u128(self, denominator);
        }
        mul_div_floor(self, denominator, y)
    }

    fn fixed_div_ceil(self, y: u64, denominator: u64) -> (r: Option<u64>) {
        proof {
            lemma_product_fits_u128(self, denominator);
        }
        mul_div_ceil(self, denominator, y)
    }
}

} // verus!
