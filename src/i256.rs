//! Signed 256-bit integers: the widest signed width, computed by the host and
//! with nothing wider to move to.
use crate::be_bytes::{be_value, lemma_be_value_32, lemma_be_value_zero, two_pow_255, two_pow_256};
use crate::fixed_point::IntegerValue;
use crate::rounding::{
    ceil_div, floor_div, lemma_floor_ceil_bracket, lemma_rounding_from_trunc, trunc_div,
};
use crate::soroban_fixed_point::SorobanFixedPoint;
use soroban_sdk::{Bytes, Env, I256};
use vstd::prelude::*;

verus! {

/// Whether `v` lies in the signed 256-bit range.
pub open spec fn is_i256(v: int) -> bool {
    -two_pow_255() <= v < two_pow_255()
}

/// A signed 256-bit integer, held as its 32 big-endian two's-complement bytes,
/// the form in which the host takes and gives such numbers.
#[derive(Clone, Copy, Debug, PartialEq, Eq)]
pub struct Int256 {
    pub bytes: [u8; 32],
}

impl Int256 {
    /// The integer that the bytes spell.
    pub open spec fn value(&self) -> int {
        if self.bytes@[0] >= 128 {
            be_value(self.bytes@) - two_pow_256()
        } else {
            be_value(self.bytes@) as int
        }
    }

    /// Every byte string spells a signed 256-bit integer, negative exactly when
    /// its leading byte has the top bit set, and zero exactly when every byte
    /// is zero.
    pub proof fn lemma_value(&self)
        ensures
            is_i256(self.value()),
            self.value() < 0 <==> self.bytes@[0] >= 128,
            self.value() == 0 <==> forall|i: int| 0 <= i < 32 ==> self.bytes@[i] == 0,
    {
        lemma_be_value_32(self.bytes@);
        lemma_be_value_zero(self.bytes@);
    }

    /// The 256-bit integer of the same value as `x`.
    pub fn from_i128(env: &Env, x: i128) -> (r: Int256)
        ensures
            r.value() == x,
    {
        host_from_i128(env, x)
    }

    /// The value as an `i128`, or `None` where it does not fit.
    pub fn to_i128(&self, env: &Env) -> (r: Option<i128>)
        ensures
            r == if i128::MIN <= self.value() <= i128::MAX {
                Some(self.value() as i128)
            } else {
                None
            },
    {
        host_to_i128(env, self)
    }

    /// Whether the value is below zero.
    pub fn is_negative(&self) -> (r: bool)
        ensures
            r == (self.value() < 0),
    {
        proof {
            self.lemma_value();
        }
        self.bytes[0] >= 128
    }

    /// Whether the value is zero.
    pub fn is_zero(&self) -> (r: bool)
        ensures
            r == (self.value() == 0),
    {
        proof {
            self.lemma_value();
        }
        let mut i: usize = 0;
        while i < 32
            invariant
                0 <= i <= 32,
                forall|j: int| 0 <= j < i ==> self.bytes@[j] == 0,
            decreases 32 - i,
        {
            if self.bytes[i] != 0 {
                proof {
                    self.lemma_value();
                    assert(self.bytes@[i as int] != 0);
                }
                return false;
            }
            i = i + 1;
        }
        true
    }
}

/// Relies on soroban-sdk's `I256::from_i128`: the host number of the same value.
#[verifier::external_body]
fn host_from_i128(env: &Env, x: i128) -> (r: Int256)
    ensures
        r.value() == x,
{
    Int256 { bytes: I256::from_i128(env, x).to_be_bytes().try_into().unwrap() }
}

/// Relies on soroban-sdk's `I256::to_i128`: the value where it fits an `i128`,
/// else `None`.
#[verifier::external_body]
fn host_to_i128(env: &Env, a: &Int256) -> (r: Option<i128>)
    ensures
        r == if i128::MIN <= a.value() <= i128::MAX {
            Some(a.value() as i128)
        } else {
            None
        },
{
    I256::from_be_bytes(env, &Bytes::from_array(env, &a.bytes)).to_i128()
}

/// Relies on soroban-sdk's `I256::mul`: the host's checked product, which
/// faults when it does not fit.
#[verifier::external_body]
fn host_mul(env: &Env, a: &Int256, b: &Int256) -> (r: Int256)
    requires
        is_i256(a.value() * b.value()),
    ensures
        r.value() == a.value() * b.value(),
{
    let x = I256::from_be_bytes(env, &Bytes::from_array(env, &a.bytes));
    let y = I256::from_be_bytes(env, &Bytes::from_array(env, &b.bytes));
    Int256 { bytes: x.mul(&y).to_be_bytes().try_into().unwrap() }
}

/// Relies on soroban-sdk's `I256::div`: the host's checked quotient rounded
/// toward zero, which faults on a zero divisor or a quotient that does not fit.
#[verifier::external_body]
fn host_div(env: &Env, a: &Int256, b: &Int256) -> (r: Int256)
    requires
        b.value() != 0,
        is_i256(trunc_div(a.value(), b.value())),
    ensures
        r.value() == trunc_div(a.value(), b.value()),
{
    let x = I256::from_be_bytes(env, &Bytes::from_array(env, &a.bytes));
    let y = I256::from_be_bytes(env, &Bytes::from_array(env, &b.bytes));
    Int256 { bytes: x.div(&y).to_be_bytes().try_into().unwrap() }
}

/// Relies on soroban-sdk's `I256::rem_euclid`: the host's checked Euclidean
/// remainder, never negative, which faults on a zero divisor and on the
/// smallest value divided by minus one.
#[verifier::external_body]
fn host_rem_euclid(env: &Env, a: &Int256, b: &Int256) -> (r: Int256)
    requires
        b.value() != 0,
        !(a.value() == -two_pow_255() && b.value() == -1),
    ensures
        r.value() == a.value() % b.value(),
{
    let x = I256::from_be_bytes(env, &Bytes::from_array(env, &a.bytes));
    let y = I256::from_be_bytes(env, &Bytes::from_array(env, &b.bytes));
    Int256 { bytes: x.rem_euclid(&y).to_be_bytes().try_into().unwrap() }
}

/// Relies on soroban-sdk's `I256::add`: the host's checked sum, which faults
/// when it does not fit.
#[verifier::external_body]
fn host_add(env: &Env, a: &Int256, b: &Int256) -> (r: Int256)
    requires
        is_i256(a.value() + b.value()),
    ensures
        r.value() == a.value() + b.value(),
{
    let x = I256::from_be_bytes(env, &Bytes::from_array(env, &a.bytes));
    let y = I256::from_be_bytes(env, &Bytes::from_array(env, &b.bytes));
    Int256 { bytes: x.add(&y).to_be_bytes().try_into().unwrap() }
}

/// Relies on soroban-sdk's `I256::sub`: the host's checked difference, which
/// faults when it does not fit.
#[verifier::external_body]
fn host_sub(env: &Env, a: &Int256, b: &Int256) -> (r: Int256)
    requires
        is_i256(a.value() - b.value()),
    ensures
        r.value() == a.value() - b.value(),
{
    let x = I256::from_be_bytes(env, &Bytes::from_array(env, &a.bytes));
    let y = I256::from_be_bytes(env, &Bytes::from_array(env, &b.bytes));
    Int256 { bytes: x.sub(&y).to_be_bytes().try_into().unwrap() }
}

/// `floor(x * y / z)` on host numbers.
pub fn mul_div_floor(env: &Env, x: &Int256, y: &Int256, z: &Int256) -> (r: Int256)
    requires
        z.value() != 0,
        is_i256(x.value() * y.value()),
        is_i256(floor_div(x.value() * y.value(), z.value())),
    ensures
        r.value() == floor_div(x.value() * y.value(), z.value()),
{
    let zero = Int256::from_i128(env, 0);
    let r = host_mul(env, x, y);
    let r_negative = r.is_negative();
    let r_zero = r.is_zero();
    let z_negative = z.is_negative();
    proof {
        lemma_rounding_from_trunc(r.value(), z.value());
        lemma_floor_ceil_bracket(r.value(), z.value());
    }
    if (r_negative && !z_negative) || (!r_negative && !r_zero && z_negative) {
        // the quotient is negative: truncation gave its ceiling
        let remainder = host_rem_euclid(env, &r, z);
        let one = Int256::from_i128(env, 1);
        let correction = if remainder.is_zero() { zero } else { one };
        host_sub(env, &host_div(env, &r, z), &correction)
    } else {
        // the quotient is not negative: truncation gave its floor
        host_div(env, &r, z)
    }
}

/// `ceil(x * y / z)` on host numbers.
pub fn mul_div_ceil(env: &Env, x: &Int256, y: &Int256, z: &Int256) -> (r: Int256)
    requires
        z.value() != 0,
        is_i256(x.value() * y.value()),
        is_i256(ceil_div(x.value() * y.value(), z.value())),
    ensures
        r.value() == ceil_div(x.value() * y.value(), z.value()),
{
    let zero = Int256::from_i128(env, 0);
    let r = host_mul(env, x, y);
    let r_negative = r.is_negative();
    let r_zero = r.is_zero();
    let z_negative = z.is_negative();
    proof {
        lemma_rounding_from_trunc(r.value(), z.value());
        lemma_floor_ceil_bracket(r.value(), z.value());
    }
    proof {
        if r.value() == -two_pow_255() && z.value() == -1 {
            assert(two_pow_255() / 1 == two_pow_255());
            assert(ceil_div(r.value(), z.value()) == two_pow_255());
        }
    }
    if (!r_negative && !r_zero && !z_negative) || (r_negative && z_negative) {
        // the quotient is positive: truncation gave its floor
        let remainder = host_rem_euclid(env, &r, z);
        let one = Int256::from_i128(env, 1);
        let correction = if remainder.is_zero() { zero } else { one };
        host_add(env, &host_div(env, &r, z), &correction)
    } else {
        // the quotient is not positive: truncation gave its ceiling
        host_div(env, &r, z)
    }
}

impl IntegerValue for Int256 {
    open spec fn int_value(&self) -> int {
        self.value()
    }

    open spec fn in_range(v: int) -> bool {
        is_i256(v)
    }
}

impl SorobanFixedPoint for Int256 {
    open spec fn product_fits_wide(p: int) -> bool {
        is_i256(p)
    }

    fn fixed_mul_floor(&self, env: &Env, y: &Int256, denominator: &Int256) -> (r: Int256) {
        mul_div_floor(env, self, y, denominator)
    }

    fn fixed_mul_ceil(&self, env: &Env, y: &Int256, denominator: &Int256) -> (r: Int256) {
        mul_div_ceil(env, self, y, denominator)
    }

    fn fixed_div_floor(&self, env: &Env, y: &Int256, denominator: &Int256) -> (r: Int256) {
        mul_div_floor(env, self, denominator, y)
    }

    fn fixed_div_ceil(&self, env: &Env, y: &Int256, denominator: &Int256) -> (r: Int256) {
        mul_div_ceil(env, self, denominator, y)
    }
}

} // verus!
