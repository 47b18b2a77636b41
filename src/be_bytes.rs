//! The integer that a big-endian byte string spells, and the facts about it
//! that the 256-bit types read off their leading byte.
use vstd::prelude::*;

verus! {

/// `256` raised to `n`.
pub open spec fn pow256(n: nat) -> nat
    decreases n,
{
    if n == 0 {
        1
    } else {
        256 * pow256((n - 1) as nat)
    }
}

/// The unsigned value of a big-endian byte string.
pub open spec fn be_value(s: Seq<u8>) -> nat
    decreases s.len(),
{
    if s.len() == 0 {
        0
    } else {
        (s[0] as nat) * pow256((s.len() - 1) as nat) + be_value(s.skip(1))
    }
}

/// `2^256`, the number of values of a 256-bit integer.
pub open spec fn two_pow_256() -> int {
    0x1_0000_0000_0000_0000_0000_0000_0000_0000_0000_0000_0000_0000_0000_0000_0000_0000int
}

/// `2^255`, the bound of the signed 256-bit range.
pub open spec fn two_pow_255() -> int {
    0x8000_0000_0000_0000_0000_0000_0000_0000_0000_0000_0000_0000_0000_0000_0000_0000int
}

proof fn lemma_pow256_31()
    ensures
        128 * pow256(31) == two_pow_255(),
        256 * pow256(31) == two_pow_256(),
{
    reveal_with_fuel(pow256, 32);
}

/// A string of `n` bytes spells a value below `256^n`.
pub proof fn lemma_be_value_bound(s: Seq<u8>)
    ensures
        be_value(s) < pow256(s.len()),
    decreases s.len(),
{
    if s.len() > 0 {
        lemma_be_value_bound(s.skip(1));
        let p = pow256((s.len() - 1) as nat);
        let rest = be_value(s.skip(1));
        assert(s[0] * p + rest < 256 * p) by (nonlinear_arith)
            requires s[0] <= 255, rest < p;
    }
}

/// A byte string spells zero exactly when every byte is zero.
pub proof fn lemma_be_value_zero(s: Seq<u8>)
    ensures
        be_value(s) == 0 <==> forall|i: int| 0 <= i < s.len() ==> s[i] == 0,
    decreases s.len(),
{
    if s.len() > 0 {
        lemma_be_value_zero(s.skip(1));
        let p = pow256((s.len() - 1) as nat);
        assert(p > 0) by {
            lemma_pow256_pos((s.len() - 1) as nat);
        }
        if be_value(s) == 0 {
            assert(s[0] == 0) by (nonlinear_arith)
                requires s[0] * p + be_value(s.skip(1)) == 0, p > 0;
            assert forall|i: int| 0 <= i < s.len() implies s[i] == 0 by {
                if i > 0 {
                    assert(s[i] == s.skip(1)[i - 1]);
                }
            }
        }
        if forall|i: int| 0 <= i < s.len() ==> s[i] == 0 {
            assert forall|i: int| 0 <= i < s.skip(1).len() implies s.skip(1)[i] == 0 by {
                assert(s.skip(1)[i] == s[i + 1]);
            }
        }
    }
}

proof fn lemma_pow256_pos(n: nat)
    ensures
        pow256(n) > 0,
    decreases n,
{
    if n > 0 {
        lemma_pow256_pos((n - 1) as nat);
    }
}

/// Of 32 bytes, the leading one is at least `128` exactly when the value
/// reaches `2^255`; and the value stays below `2^256`.
pub proof fn lemma_be_value_32(s: Seq<u8>)
    requires
        s.len() == 32,
    ensures
        be_value(s) < two_pow_256(),
        s[0] >= 128 <==> be_value(s) >= two_pow_255(),
{
    lemma_pow256_31();
    lemma_be_value_bound(s);
    lemma_be_value_bound(s.skip(1));
    let p = pow256(31);
    let rest = be_value(s.skip(1));
    assert(be_value(s) == s[0] * p + rest);
    if s[0] >= 128 {
        assert(s[0] * p >= 128 * p) by (nonlinear_arith)
            requires s[0] >= 128, p >= 0;
    } else {
        assert(s[0] * p + rest < 128 * p) by (nonlinear_arith)
            requires s[0] <= 127, rest < p;
    }
}

} // verus!
