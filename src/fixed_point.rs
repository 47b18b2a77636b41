//! The recoverable contract: every failure is returned as `None`.
use crate::rounding::{spec_div_ceil, spec_div_floor, spec_mul_ceil, spec_mul_floor};
use vstd::prelude::*;

verus! {

/// The integer that a value of a fixed-width type stands for, and the range of
/// the type.
pub trait IntegerValue: Sized {
    /// The mathematical value.
    spec fn int_value(&self) -> int;

    /// Whether `v` is a value of the type.
    spec fn in_range(v: int) -> bool;
}

/// Fixed-point multiply-then-divide that reports every failure as `None`: a
/// zero divisor, a product that does not fit the width at which it is formed,
/// and a result that is not a value of the type.
pub trait FixedPoint: IntegerValue {
    /// Whether a product `p` of two operands fits the width at which this type
    /// forms it.
    spec fn product_fits(p: int) -> bool;

    /// `floor(self * y / denominator)`.
    fn fixed_mul_floor(self, y: Self, denominator: Self) -> (r: Option<Self>)
        ensures
            r is Some <==> {
                &&& denominator.int_value() != 0
                &&& Self::product_fits(self.int_value() * y.int_value())
                &&& Self::in_range(
                    spec_mul_floor(self.int_value(), y.int_value(), denominator.int_value()),
                )
            },
            r matches Some(v) ==> v.int_value() == spec_mul_floor(
                self.int_value(),
                y.int_value(),
                denominator.int_value(),
            ),
    ;

    /// `ceil(self * y / denominator)`.
    fn fixed_mul_ceil(self, y: Self, denominator: Self) -> (r: Option<Self>)
        ensures
            r is Some <==> {
                &&& denominator.int_value() != 0
                &&& Self::product_fits(self.int_value() * y.int_value())
                &&& Self::in_range(
                    spec_mul_ceil(self.int_value(), y.int_value(), denominator.int_value()),
                )
            },
            r matches Some(v) ==> v.int_value() == spec_mul_ceil(
                self.int_value(),
                y.int_value(),
                denominator.int_value(),
            ),
    ;

    /// `floor(self * denominator / y)`.
    fn fixed_div_floor(self, y: Self, denominator: Self) -> (r: Option<Self>)
        ensures
            r is Some <==> {
                &&& y.int_value() != 0
                &&& Self::product_fits(self.int_value() * denominator.int_value())
                &&& Self::in_range(
                    spec_div_floor(self.int_value(), y.int_value(), denominator.int_value()),
                )
            },
            r matches Some(v) ==> v.int_value() == spec_div_floor(
                self.int_value(),
                y.int_value(),
                denominator.int_value(),
            ),
    ;

    /// `ceil(self * denominator / y)`.
    fn fixed_div_ceil(self, y: Self, denominator: Self) -> (r: Option<Self>)
        ensures
            r is Some <==> {
                &&& y.int_value() != 0
                &&& Self::product_fits(self.int_value() * denominator.int_value())
                &&& Self::in_range(
                    spec_div_ceil(self.int_value(), y.int_value(), denominator.int_value()),
                )
            },
            r matches Some(v) ==> v.int_value() == spec_div_ceil(
                self.int_value(),
                y.int_value(),
                denominator.int_value(),
            ),
    ;
}

} // verus!
