//! Fixed-point multiply-then-divide with exact floor and ceiling rounding, for
//! signed and unsigned integers of 64, 128 and 256 bits.
use vstd::prelude::*;

pub mod be_bytes;
pub mod fixed_point;
pub mod i128;
pub mod i256;
pub mod i64;
pub mod laws;
pub mod rounding;
pub mod soroban_fixed_point;
pub mod u128;
pub mod u256;
pub mod u64;

pub use fixed_point::{FixedPoint, IntegerValue};
pub use i256::Int256;
pub use soroban_fixed_point::SorobanFixedPoint;
pub use u256::Uint256;

verus! {

/// The number of stroops in one unit: the scale of seven decimal places.
pub const STROOP: u64 = 1_0000000;

} // verus!
