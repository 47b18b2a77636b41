//! Unsigned 256-bit integers: the widest unsigned width, computed by the host
//! and with nothing wider to move to.
use crate::be_bytes::{be_value, lemma_be_value_32, lemma_be_value_zero, two_pow_256};
use crate::fixed_point::IntegerValue;
use crate::rounding::{ceil_div, floor_div, lemma_floor_ceil_bracket, lemma_quotient_within};
use crate::soroban_fixed_point::SorobanFixedPoint;
use soroban_sdk::{Bytes, Env, U256};
use vstd::prelude::*;

verus! {

/// Whether `v` lies in the unsigned 256-bit range.
pub open spec fn is_u256(v: int) -> bool {
    0 <= v < two_pow_256()
}

/// An unsigned 256-bit integer, held as its 32 big-endian bytes, the form in
/// which the host takes and gives such numbers.
#[derive(Clone, Copy, Debug, PartialEq, Eq)]
pub struct Uint256 {
    pub bytes: [u8; 32],
}

impl Uint256 {
    /// The integer that the bytes spell.
    pub open spec fn value(&self) -> int {
        be_value(self.bytes@) as int
    }

    /// Every byte string spells an unsigned 256-bit integer, zero exactly when
    /// every byte is zero.
    pub proof fn lemma_value(&self)
        ensures
            is_u256(self.value()),
            self.value() == 0 <==> forall|i: int| 0 <= i < 32 ==> self.bytes@[i] == 0,
    {
        lemma_be_value_32(self.bytes@);
        lemma_be_value_zero(self.bytes@);
    }

    /// The 256-bit integer of the same value as `x`.
    pub fn from_u128(env: &Env, x: u128) -> (r: Uint256)
        ensures
            r.value() == x,
    {
        host_from_u128(env, x)
    }

    /// The value as a `u128`, or `None` where it does not fit.
    pub fn to_u128(&self, env: &Env) -> (r: Option<u128>)
        ensures
            r == if self.value() <= u128::MAX {
                Some(self.value() as u128)
            } else {
                None
            },
    {
        host_to_u128(env, self)
    }

    /// Whether the value is zero.
    pub fn is_zero(&self) -> (r: bool)
        ensures
            r == (self.value() == 0),
    {
        let mut i: usize = 0;
        while i < 32
            invariant
                0 <= i <= 32,
                forall|j: int| 0 <= j < i ==> self.bytes@[j] == 0,
            decreases 32 - i,
        {
            if self.bytes[i] != 0 {
                proof {
                    self.lemma_value();
                    assert(self.bytes@[i as int] != 0);
                }
                return false;
            }
            i = i + 1;
        }
        proof {
            self.lemma_value();
        }
        true
    }
}

/// Relies on soroban-sdk's `U256::from_u128`: the host number of the same value.
#[verifier::external_body]
fn host_from_u128(env: &Env, x: u128) -> (r: Uint256)
    ensures
        r.value() == x,
{
    Uint256 { bytes: U256::from_u128(env, x).to_be_bytes().try_into().unwrap() }
}

/// Relies on soroban-sdk's `U256::to_u128`: the value where it fits a `u128`,
/// else `None`.
#[verifier::external_body]
fn host_to_u128(env: &Env, a: &Uint256) -> (r: Option<u128>)
    ensures
        r == if a.value() <= u128::MAX {
            Some(a.value() as u128)
        } else {
            None
        },
{
    U256::from_be_bytes(env, &Bytes::from_array(env, &a.bytes)).to_u128()
}

/// Relies on soroban-sdk's `U256::mul`: the host's checked product, which
/// faults when it does not fit.
#[verifier::external_body]
fn host_mul(env: &Env, a: &Uint256, b: &Uint256) -> (r: Uint256)
    requires
        is_u256(a.value() * b.value()),
    ensures
        r.value() == a.value() * b.value(),
{
    let x = U256::from_be_bytes(env, &Bytes::from_array(env, &a.bytes));
    let y = U256::from_be_bytes(env, &Bytes::from_array(env, &b.bytes));
    Uint256 { bytes: x.mul(&y).to_be_bytes().try_into().unwrap() }
}

/// Relies on soroban-sdk's `U256::div`: the host's quotient rounded down, which
/// faults on a zero divisor.
#[verifier::external_body]
fn host_div(env: &Env, a: &Uint256, b: &Uint256) -> (r: Uint256)
    requires
        b.value() != 0,
    ensures
        r.value() == a.value() / b.value(),
{
    let x = U256::from_be_bytes(env, &Bytes::from_array(env, &a.bytes));
    let y = U256::from_be_bytes(env, &Bytes::from_array(env, &b.bytes));
    Uint256 { bytes: x.div(&y).to_be_bytes().try_into().unwrap() }
}

/// Relies on soroban-sdk's `U256::rem_euclid`: the host's remainder, which
/// faults on a zero divisor.
#[verifier::external_body]
fn host_rem_euclid(env: &Env, a: &Uint256, b: &Uint256) -> (r: Uint256)
    requires
        b.value() != 0,
    ensures
        r.value() == a.value() % b.value(),
{
    let x = U256::from_be_bytes(env, &Bytes::from_array(env, &a.bytes));
    let y = U256::from_be_bytes(env, &Bytes::from_array(env, &b.bytes));
    Uint256 { bytes: x.rem_euclid(&y).to_be_bytes().try_into().unwrap() }
}

/// Relies on soroban-sdk's `U256::add`: the host's checked sum, which faults
/// when it does not fit.
#[verifier::external_body]
fn host_add(env: &Env, a: &Uint256, b: &Uint256) -> (r: Uint256)
    requires
        is_u256(a.value() + b.value()),
    ensures
        r.value() == a.value() + b.value(),
{
    let x = U256::from_be_bytes(env, &Bytes::from_array(env, &a.bytes));
    let y = U256::from_be_bytes(env, &Bytes::from_array(env, &b.bytes));
    Uint256 { bytes: x.add(&y).to_be_bytes().try_into().unwrap() }
}

/// `floor(x * y / z)` on host numbers.
pub fn mul_div_floor(env: &Env, x: &Uint256, y: &Uint256, z: &Uint256) -> (r: Uint256)
    requires
        z.value() != 0,
        is_u256(x.value() * y.value()),
    ensures
        r.value() == floor_div(x.value() * y.value(), z.value()),
{
    proof {
        z.lemma_value();
    }
    // the quotient is not negative: truncation gives its floor
    host_div(env, &host_mul(env, x, y), z)
}

/// `ceil(x * y / z)` on host numbers.
pub fn mul_div_ceil(env: &Env, x: &Uint256, y: &Uint256, z: &Uint256) -> (r: Uint256)
    requires
        z.value() != 0,
        is_u256(x.value() * y.value()),
    ensures
        r.value() == ceil_div(x.value() * y.value(), z.value()),
{
    let r = host_mul(env, x, y);
    proof {
        z.lemma_value();
        lemma_floor_ceil_bracket(r.value(), z.value());
        lemma_quotient_within(r.value(), z.value());
    }
    let remainder = host_rem_euclid(env, &r, z);
    let zero = Uint256::from_u128(env, 0);
    let one = Uint256::from_u128(env, 1);
    let correction = if remainder.is_zero() { zero } else { one };
    host_add(env, &host_div(env, &r, z), &correction)
}

impl IntegerValue for Uint256 {
    open spec fn int_value(&self) -> int {
        self.value()
    }

    open spec fn in_range(v: int) -> bool {
        is_u256(v)
    }
}

impl SorobanFixedPoint for Uint256 {
    open spec fn product_fits_wide(p: int) -> bool {
        is_u256(p)
    }

    fn fixed_mul_floor(&self, env: &Env, y: &Uint256, denominator: &Uint256) -> (r: Uint256) {
        mul_div_floor(env, self, y, denominator)
    }

    fn fixed_mul_ceil(&self, env: &Env, y: &Uint256, denominator: &Uint256) -> (r: Uint256) {
        mul_div_ceil(env, self, y, denominator)
    }

    fn fixed_div_floor(&self, env: &Env, y: &Uint256, denominator: &Uint256) -> (r: Uint256) {
        mul_div_floor(env, self, denominator, y)
    }

    fn fixed_div_ceil(&self, env: &Env, y: &Uint256, denominator: &Uint256) -> (r: Uint256) {
        mul_div_ceil(env, self, denominator, y)
    }
}

} // verus!
