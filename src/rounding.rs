//! The mathematics of rounded division, and the facts that let a truncating
//! division primitive produce it.
use vstd::arithmetic::div_mod::{lemma_fundamental_div_mod, lemma_fundamental_div_mod_converse};
use vstd::prelude::*;

verus! {

/// The largest integer not above the rational `a / b`, for `b != 0`.
pub open spec fn floor_div(a: int, b: int) -> int {
    if b > 0 {
        a / b
    } else {
        (-a) / (-b)
    }
}

/// The smallest integer not below the rational `a / b`, for `b != 0`.
pub open spec fn ceil_div(a: int, b: int) -> int {
    -floor_div(-a, b)
}

/// The rational `a / b` rounded toward zero, for `b != 0`: what Rust's `/` gives.
pub open spec fn trunc_div(a: int, b: int) -> int {
    if (a >= 0 && b > 0) || (a <= 0 && b < 0) {
        floor_div(a, b)
    } else {
        ceil_div(a, b)
    }
}

/// `floor(x * y / denominator)`: what `fixed_mul_floor` computes.
pub open spec fn spec_mul_floor(x: int, y: int, denominator: int) -> int {
    floor_div(x * y, denominator)
}

/// `ceil(x * y / denominator)`: what `fixed_mul_ceil` computes.
pub open spec fn spec_mul_ceil(x: int, y: int, denominator: int) -> int {
    ceil_div(x * y, denominator)
}

/// `floor(x * denominator / y)`: what `fixed_div_floor` computes.
pub open spec fn spec_div_floor(x: int, y: int, denominator: int) -> int {
    floor_div(x * denominator, y)
}

/// `ceil(x * denominator / y)`: what `fixed_div_ceil` computes.
pub open spec fn spec_div_ceil(x: int, y: int, denominator: int) -> int {
    ceil_div(x * denominator, y)
}

/// Whether the exact quotient `a / b` is negative: the product and the divisor
/// have opposite signs.
pub open spec fn opposite_signs(a: int, b: int) -> bool {
    (a < 0 && b > 0) || (a > 0 && b < 0)
}

/// Whether the exact quotient `a / b` is positive.
pub open spec fn same_signs(a: int, b: int) -> bool {
    (a > 0 && b > 0) || (a < 0 && b < 0)
}

/// One when `b` does not divide `a`, else zero.
pub open spec fn inexact(a: int, b: int) -> int {
    if a % b != 0 {
        1
    } else {
        0
    }
}

proof fn lemma_floor_pos(a: int, b: int)
    requires
        b > 0,
    ensures
        a >= 0 ==> floor_div(a, b) >= 0,
        a < 0 ==> floor_div(a, b) == -((-a) / b) - inexact(a, b),
        a < 0 ==> (a % b == 0 <==> (-a) % b == 0),
{
    if a < 0 {
        let q = (-a) / b;
        let m = (-a) % b;
        lemma_fundamental_div_mod(-a, b);
        if m == 0 {
            assert(a == (-q) * b + 0) by (nonlinear_arith)
                requires -a == b * q + m, m == 0;
            lemma_fundamental_div_mod_converse(a, b, -q, 0);
        } else {
            assert(a == (-q - 1) * b + (b - m)) by (nonlinear_arith)
                requires -a == b * q + m;
            lemma_fundamental_div_mod_converse(a, b, -q - 1, b - m);
        }
    } else {
        lemma_fundamental_div_mod(a, b);
        assert(a / b >= 0) by (nonlinear_arith)
            requires a == b * (a / b) + a % b, 0 <= a % b < b, a >= 0, b > 0;
    }
}

proof fn lemma_exact_negated(a: int, b: int)
    requires
        b < 0,
    ensures
        inexact(a, b) == inexact(-a, -b),
{
    lemma_fundamental_div_mod(a, b);
    lemma_fundamental_div_mod(-a, -b);
    let q = a / b;
    let q2 = (-a) / (-b);
    if a % b == 0 {
        assert(-a == q * (-b) + 0) by (nonlinear_arith)
            requires a == b * q + a % b, a % b == 0;
        lemma_fundamental_div_mod_converse(-a, -b, q, 0);
    }
    if (-a) % (-b) == 0 {
        let r = a % b;
        assert(r == b * (q2 - q)) by (nonlinear_arith)
            requires a == b * q + r, -a == (-b) * q2 + 0;
        assert(r == 0) by (nonlinear_arith)
            requires r == b * (q2 - q), 0 <= r < -b, b < 0;
    }
}

/// Truncating division corrected by one toward the right side when a remainder
/// is left gives the floor and the ceiling.
pub proof fn lemma_rounding_from_trunc(a: int, b: int)
    requires
        b != 0,
    ensures
        floor_div(a, b) == if opposite_signs(a, b) {
            trunc_div(a, b) - inexact(a, b)
        } else {
            trunc_div(a, b)
        },
        ceil_div(a, b) == if same_signs(a, b) {
            trunc_div(a, b) + inexact(a, b)
        } else {
            trunc_div(a, b)
        },
    decreases if b < 0 { 1int } else { 0int },
{
    if b > 0 {
        lemma_floor_pos(a, b);
        lemma_floor_pos(-a, b);
        if a == 0 {
            assert(0int / b == 0) by (nonlinear_arith)
                requires b > 0;
        }
    } else {
        lemma_rounding_from_trunc(-a, -b);
        lemma_exact_negated(a, b);
    }
}

/// The floor and the ceiling of `a / b` are equal when `b` divides `a`, and one
/// apart otherwise; a negative quotient has a ceiling of at most zero, and a
/// positive one a floor of at least zero.
pub proof fn lemma_floor_ceil_bracket(a: int, b: int)
    requires
        b != 0,
    ensures
        ceil_div(a, b) == floor_div(a, b) + inexact(a, b),
        opposite_signs(a, b) ==> ceil_div(a, b) <= 0,
        same_signs(a, b) ==> floor_div(a, b) >= 0,
        a == 0 ==> floor_div(a, b) == 0 && ceil_div(a, b) == 0,
    decreases if b < 0 { 1int } else { 0int },
{
    if b > 0 {
        lemma_rounding_from_trunc(a, b);
        lemma_floor_pos(a, b);
        lemma_floor_pos(-a, b);
        if a == 0 {
            assert(0int / b == 0 && 0int % b == 0) by (nonlinear_arith)
                requires b > 0;
        }
    } else {
        lemma_floor_ceil_bracket(-a, -b);
        lemma_exact_negated(a, b);
    }
}

/// A non-negative quotient rounded either way stays within its dividend.
pub proof fn lemma_quotient_within(a: int, b: int)
    requires
        0 <= a,
        0 < b,
    ensures
        0 <= floor_div(a, b) <= ceil_div(a, b) <= a,
{
    lemma_floor_ceil_bracket(a, b);
    lemma_fundamental_div_mod(a, b);
    let q = a / b;
    let m = a % b;
    assert(q >= 0 && q <= a && (m != 0 ==> q < a)) by (nonlinear_arith)
        requires a >= 0, b > 0, a == b * q + m, 0 <= m < b;
}

} // verus!
