//! Laws that tie the four operations, the two roundings and the width tiers
//! together, stated over the quotients that the contracts promise.
use crate::i128::{is_i128, lemma_product_fits_i256, mul_ceil_result, mul_floor_result};
use crate::i256::is_i256;
use crate::i64::{is_i64, lemma_product_fits_i128};
use crate::rounding::{
    ceil_div, floor_div, inexact, lemma_floor_ceil_bracket, spec_div_ceil, spec_div_floor,
    spec_mul_ceil, spec_mul_floor,
};
use crate::u128::{is_u128, lemma_product_fits_u256};
use crate::u256::is_u256;
use crate::u64::{is_u64, lemma_product_fits_u128};
use vstd::arithmetic::div_mod::lemma_fundamental_div_mod;
use vstd::prelude::*;

verus! {

proof fn lemma_bracket_positive(p: int, b: int)
    requires
        b > 0,
    ensures
        floor_div(p, b) * b <= p < (floor_div(p, b) + 1) * b,
        p <= ceil_div(p, b) * b,
{
    lemma_floor_ceil_bracket(p, b);
    lemma_fundamental_div_mod(p, b);
    let q = p / b;
    let m = p % b;
    assert(q * b <= p < (q + 1) * b && (m != 0 ==> p <= (q + 1) * b) && (m == 0 ==> p <= q * b))
        by (nonlinear_arith)
        requires p == b * q + m, 0 <= m < b;
}

/// Floor and ceiling bracket the exact quotient `x * y / z`: with a positive
/// denominator `floor * z <= x * y <= ceil * z`, and one more than the floor
/// already overshoots; with a negative denominator the inequalities turn
/// round. The ceiling is the floor plus one exactly when `z` leaves a
/// remainder, and the floor itself otherwise.
pub proof fn law_floor_ceil_bracket(x: int, y: int, z: int)
    requires
        z != 0,
    ensures
        z > 0 ==> spec_mul_floor(x, y, z) * z <= x * y <= spec_mul_ceil(x, y, z) * z,
        z > 0 ==> x * y < (spec_mul_floor(x, y, z) + 1) * z,
        z < 0 ==> spec_mul_floor(x, y, z) * z >= x * y >= spec_mul_ceil(x, y, z) * z,
        z < 0 ==> x * y > (spec_mul_floor(x, y, z) + 1) * z,
        spec_mul_ceil(x, y, z) == spec_mul_floor(x, y, z) + inexact(x * y, z),
        inexact(x * y, z) == (if (x * y) % z != 0 { 1int } else { 0int }),
{
    let p = x * y;
    lemma_floor_ceil_bracket(p, z);
    if z > 0 {
        lemma_bracket_positive(p, z);
    } else {
        lemma_bracket_positive(-p, -z);
        let f = floor_div(p, z);
        let c = ceil_div(p, z);
        assert(f == floor_div(-p, -z));
        assert(c == ceil_div(-p, -z));
        assert(f * z >= p >= c * z && p > (f + 1) * z) by (nonlinear_arith)
            requires f * (-z) <= -p < (f + 1) * (-z), -p <= c * (-z);
    }
}

/// When `z` divides `x * y` exactly, rounding down and rounding up agree.
pub proof fn law_exact_quotient(x: int, y: int, z: int)
    requires
        z != 0,
        (x * y) % z == 0,
    ensures
        spec_mul_floor(x, y, z) == spec_mul_ceil(x, y, z),
{
    lemma_floor_ceil_bracket(x * y, z);
}

/// Multiplying by `b` and dividing by `c` is dividing by `c` with `b` as the
/// scale: `fixed_mul_floor(a, b, c)` and `fixed_div_floor(a, c, b)` promise the
/// same quotient, and so do the two ceilings.
pub proof fn law_mul_div_duality(a: int, b: int, c: int)
    ensures
        spec_mul_floor(a, b, c) == spec_div_floor(a, c, b),
        spec_mul_ceil(a, b, c) == spec_div_ceil(a, c, b),
{
}

/// Negating a factor swaps the roundings: the floor of `-x * y / z` is the
/// negated ceiling of `x * y / z`, and the other way round.
pub proof fn law_sign_symmetry(x: int, y: int, z: int)
    requires
        z != 0,
    ensures
        spec_mul_floor(-x, y, z) == -spec_mul_ceil(x, y, z),
        spec_mul_ceil(-x, y, z) == -spec_mul_floor(x, y, z),
{
    assert((-x) * y == -(x * y)) by (nonlinear_arith);
}

/// Where an `i128` product overflows, the recoverable contract gives `None`,
/// while the product fits 256 bits: the host contract's move to 256 bits
/// works on the exact product, and its quotient, narrowed back where it fits,
/// is the quotient that the whole computation at 256 bits gives.
pub proof fn law_escalation_i128(x: i128, y: i128, z: i128)
    requires
        !is_i128(x * y),
    ensures
        mul_floor_result(x as int, y as int, z as int) is None,
        mul_ceil_result(x as int, y as int, z as int) is None,
        is_i256(x * y),
        is_i128(spec_mul_floor(x as int, y as int, z as int)) ==> is_i256(
            spec_mul_floor(x as int, y as int, z as int),
        ),
        is_i128(spec_mul_ceil(x as int, y as int, z as int)) ==> is_i256(
            spec_mul_ceil(x as int, y as int, z as int),
        ),
{
    lemma_product_fits_i256(x, y);
}

/// Where a `u128` product overflows, the product still fits 256 bits: the
/// host contract's move to 256 bits works on the exact product.
pub proof fn law_escalation_u128(x: u128, y: u128, z: u128)
    requires
        !is_u128(x * y),
    ensures
        is_u256(x * y),
        is_u128(spec_mul_floor(x as int, y as int, z as int)) ==> is_u256(
            spec_mul_floor(x as int, y as int, z as int),
        ),
        is_u128(spec_mul_ceil(x as int, y as int, z as int)) ==> is_u256(
            spec_mul_ceil(x as int, y as int, z as int),
        ),
{
    lemma_product_fits_u256(x, y);
}

/// Where an `i64` product overflows, the product still fits 128 bits, where
/// the computation moves: the quotient it returns is the exact one.
pub proof fn law_escalation_i64(x: i64, y: i64, z: i64)
    requires
        !is_i64(x * y),
    ensures
        is_i128(x * y),
        is_i64(spec_mul_floor(x as int, y as int, z as int)) ==> is_i128(
            spec_mul_floor(x as int, y as int, z as int),
        ),
        is_i64(spec_mul_ceil(x as int, y as int, z as int)) ==> is_i128(
            spec_mul_ceil(x as int, y as int, z as int),
        ),
{
    lemma_product_fits_i128(x, y);
}

/// Where a `u64` product overflows, the product still fits 128 bits, where
/// the computation moves: the quotient it returns is the exact one.
pub proof fn law_escalation_u64(x: u64, y: u64, z: u64)
    requires
        !is_u64(x * y),
    ensures
        is_u128(x * y),
        is_u64(spec_mul_floor(x as int, y as int, z as int)) ==> is_u128(
            spec_mul_floor(x as int, y as int, z as int),
        ),
        is_u64(spec_mul_ceil(x as int, y as int, z as int)) ==> is_u128(
            spec_mul_ceil(x as int, y as int, z as int),
        ),
{
    lemma_product_fits_u128(x, y);
}

} // verus!
