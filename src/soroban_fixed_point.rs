//! The host contract: computed with the host's numbers, moving to the next
//! wider width when a product does not fit, and faulting where the recoverable
//! contract returns `None`. The host also faults when the environment's budget
//! runs out, which no argument decides.
use crate::fixed_point::IntegerValue;
use crate::rounding::{spec_div_ceil, spec_div_floor, spec_mul_ceil, spec_mul_floor};
use soroban_sdk::Env;
use vstd::prelude::*;

verus! {

/// The host environment, handed through to the host's 256-bit arithmetic.
#[verifier::external_type_specification]
#[verifier::external_body]
pub struct ExEnv(Env);

/// Fixed-point multiply-then-divide on host numbers.
///
/// The host faults on a zero divisor, on a product that no width can hold and
/// on a result that does not fit the type; those inputs are left out here.
pub trait SorobanFixedPoint: IntegerValue {
    /// Whether a product `p` of two operands fits the widest width that the
    /// computation reaches for this type.
    spec fn product_fits_wide(p: int) -> bool;

    /// `floor(self * y / denominator)`.
    fn fixed_mul_floor(&self, env: &Env, y: &Self, denominator: &Self) -> (r: Self)
        requires
            denominator.int_value() != 0,
            Self::product_fits_wide(self.int_value() * y.int_value()),
            Self::in_range(
                spec_mul_floor(self.int_value(), y.int_value(), denominator.int_value()),
            ),
        ensures
            r.int_value() == spec_mul_floor(
                self.int_value(),
                y.int_value(),
                denominator.int_value(),
            ),
    ;

    /// `ceil(self * y / denominator)`.
    fn fixed_mul_ceil(&self, env: &Env, y: &Self, denominator: &Self) -> (r: Self)
        requires
            denominator.int_value() != 0,
            Self::product_fits_wide(self.int_value() * y.int_value()),
            Self::in_range(
                spec_mul_ceil(self.int_value(), y.int_value(), denominator.int_value()),
            ),
        ensures
            r.int_value() == spec_mul_ceil(
                self.int_value(),
                y.int_value(),
                denominator.int_value(),
            ),
    ;

    /// `floor(self * denominator / y)`.
    fn fixed_div_floor(&self, env: &Env, y: &Self, denominator: &Self) -> (r: Self)
        requires
            y.int_value() != 0,
            Self::product_fits_wide(self.int_value() * denominator.int_value()),
            Self::in_range(
                spec_div_floor(self.int_value(), y.int_value(), denominator.int_value()),
            ),
        ensures
            r.int_value() == spec_div_floor(
                self.int_value(),
                y.int_value(),
                denominator.int_value(),
            ),
    ;

    /// `ceil(self * denominator / y)`.
    fn fixed_div_ceil(&self, env: &Env, y: &Self, denominator: &Self) -> (r: Self)
        requires
            y.int_value() != 0,
            Self::product_fits_wide(self.int_value() * denominator.int_value()),
            Self::in_range(
                spec_div_ceil(self.int_value(), y.int_value(), denominator.int_value()),
            ),
        ensures
            r.int_value() == spec_div_ceil(
                self.int_value(),
                y.int_value(),
                denominator.int_value(),
            ),
    ;
}

} // verus!
