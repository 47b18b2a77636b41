//! Signed 64-bit integers: computed at their own width, and moved to 128 bits
//! when a product does not fit.
use crate::fixed_point::{FixedPoint, IntegerValue};
use crate::i128::is_i128;
use crate::rounding::{ceil_div, floor_div, lemma_floor_ceil_bracket, lemma_rounding_from_trunc};
use vstd::prelude::*;

verus! {

/// Whether `v` lies in the `i64` range.
pub open spec fn is_i64(v: int) -> bool {
    i64::MIN <= v <= i64::MAX
}

/// The product of two `i64` values always fits 128 bits.
pub proof fn lemma_product_fits_i128(x: i64, y: i64)
    ensures
        is_i128(x * y),
{
    assert(-0x4000_0000_0000_0000_0000_0000_0000_0000int <= x * y
        <= 0x4000_0000_0000_0000_0000_0000_0000_0000int) by (nonlinear_arith)
        requires
            -0x8000_0000_0000_0000int <= x <= 0x7fff_ffff_ffff_ffffint,
            -0x8000_0000_0000_0000int <= y <= 0x7fff_ffff_ffff_ffffint,
    ;
}

/// Performs `floor(x * y / z)`.
pub fn mul_div_floor(x: i64, y: i64, z: i64) -> (r: Option<i64>)
    ensures
        r == if z != 0 && is_i64(floor_div(x * y, z as int)) {
            Some(floor_div(x * y, z as int) as i64)
        } else {
            None
        },
{
    match x.checked_mul(y) {
        Some(r) => {
            proof {
                if z != 0 {
                    lemma_rounding_from_trunc(r as int, z as int);
                    lemma_floor_ceil_bracket(r as int, z as int);
                }
            }
            if (r < 0 && z > 0) || (r > 0 && z < 0) {
                // the quotient is negative: truncation gave its ceiling
                let remainder = r.checked_rem_euclid(z)?;
                let truncated = r.checked_div(z)?;
                truncated.checked_sub(if remainder > 0 { 1 } else { 0 })
            } else {
                // the quotient is not negative: truncation gave its floor
                r.checked_div(z)
            }
        },
        None => {
            proof {
                lemma_product_fits_i128(x, y);
            }
            let res_i128 = crate::i128::mul_div_floor(x as i128, y as i128, z as i128)?;
            if res_i128 > i64::MAX as i128 || res_i128 < i64::MIN as i128 {
                return None;
            }
            Some(res_i128 as i64)
        },
    }
}

/// Performs `ceil(x * y / z)`.
pub fn mul_div_ceil(x: i64, y: i64, z: i64) -> (r: Option<i64>)
    ensures
        r == if z != 0 && is_i64(ceil_div(x * y, z as int)) {
            Some(ceil_div(x * y, z as int) as i64)
        } else {
            None
        },
{
    match x.checked_mul(y) {
        Some(r) => {
            proof {
                if z != 0 {
                    lemma_rounding_from_trunc(r as int, z as int);
                    lemma_floor_ceil_bracket(r as int, z as int);
                }
            }
            if (r > 0 && z > 0) || (r < 0 && z < 0) {
                // the quotient is positive: truncation gave its floor
                proof {
                    if r == i64::MIN && z == -1 {
                        assert(-(i64::MIN as int) / 1 == -(i64::MIN as int));
                        assert(ceil_div(r as int, z as int) == -(i64::MIN as int));
                    }
                }
                let remainder = r.checked_rem_euclid(z)?;
                let truncated = r.checked_div(z)?;
                truncated.checked_add(if remainder > 0 { 1 } else { 0 })
            } else {
                // the quotient is not positive: truncation gave its ceiling
                r.checked_div(z)
            }
        },
        None => {
            proof {
                lemma_product_fits_i128(x, y);
            }
            let res_i128 = crate::i128::mul_div_ceil(x as i128, y as i128, z as i128)?;
            if res_i128 > i64::MAX as i128 || res_i128 < i64::MIN as i128 {
                return None;
            }
            Some(res_i128 as i64)
        },
    }
}

impl IntegerValue for i64 {
    open spec fn int_value(&self) -> int {
        *self as int
    }

    open spec fn in_range(v: int) -> bool {
        is_i64(v)
    }
}

impl FixedPoint for i64 {
    open spec fn product_fits(p: int) -> bool {
        is_i128(p)
    }

    fn fixed_mul_floor(self, y: i64, denominator: i64) -> (r: Option<i64>) {
        proof {
            lemma_product_fits_i128(self, y);
        }
        mul_div_floor(self, y, denominator)
    }

    fn fixed_mul_ceil(self, y: i64, denominator: i64) -> (r: Option<i64>) {
        proof {
            lemma_product_fits_i128(self, y);
        }
        mul_div_ceil(self, y, denominator)
    }

    fn fixed_div_floor(self, y: i64, denominator: i64) -> (r: Option<i64>) {
        proof {
            lemma_product_fits_i128(self, denominator);
        }
        mul_div_floor(self, denominator, y)
    }

    fn fixed_div_ceil(self, y: i64, denominator: i64) -> (r: Option<i64>) {
        proof {
            lemma_product_fits_i128(self, denominator);
        }
        mul_div_ceil(self, denominator, y)
    }
}

} // verus!
