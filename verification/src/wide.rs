//! Multiplications wider than 64 bits.

use vstd::prelude::*;

verus! {

/// 2^64, the radix of one 64-bit limb.
pub open spec fn limb() -> int {
    0x1_0000_0000_0000_0000
}

/// A 128-bit unsigned integer held as two 64-bit halves.
#[allow(non_camel_case_types)]
pub struct uint128 {
    pub hi: u64,
    pub lo: u64,
}

impl uint128 {
    /// The integer that the two halves make up.
    pub open spec fn value(self) -> int {
        self.hi * limb() + self.lo
    }
}

/// The full 128-bit product of two 64-bit unsigned integers.
pub fn umul128(x: u64, y: u64) -> (r: u128)
    ensures
        r == x * y,
{
    proof {
        assert(x * y <= u64::MAX * u64::MAX) by (nonlinear_arith);
    }
    (x as u128) * (y as u128)
}

/// The upper 128 bits of the 192-bit product of `x = x_hi * 2^64 + x_lo`
/// and `y`.
pub fn umul192_upper128(x_hi: u64, x_lo: u64, y: u64) -> (r: uint128)
    ensures
        r.value() == (x_hi * limb() + x_lo) * y / limb(),
{
    let p = umul128(x_hi, y);
    let xy = umul128(x_lo, y);
    let q128 = xy >> 64;
    let p_lo = p as u64;
    let p_hi = (p >> 64) as u64;
    let q = q128 as u64;
    proof {
        assert(p as u64 == p % 0x1_0000_0000_0000_0000) by (bit_vector);
        assert(p >> 64 == p / 0x1_0000_0000_0000_0000) by (bit_vector);
        assert(p / 0x1_0000_0000_0000_0000 < 0x1_0000_0000_0000_0000) by (bit_vector);
        assert(xy >> 64 == xy / 0x1_0000_0000_0000_0000) by (bit_vector);
        assert(x_lo * y < limb() * limb()) by (nonlinear_arith);
        assert(q128 < limb());
        assert(q128 as u64 == q128);
    }
    let lo = p_lo.wrapping_add(q);
    let carry: u64 = if lo < p_lo { 1 } else { 0 };
    proof {
        let big = x_hi * limb() + x_lo;
        assert(big * y == (x_hi * y) * limb() + x_lo * y) by (nonlinear_arith)
            requires big == x_hi * limb() + x_lo;
        assert(big * y / limb() == x_hi * y + x_lo * y / limb()) by {
            lemma_div_offset(x_hi * y, x_lo * y, limb());
        }
        assert(big < limb() * limb()) by (nonlinear_arith)
            requires big == x_hi * limb() + x_lo, x_hi < limb(), x_lo < limb(), limb() > 0;
        assert(big * y / limb() < limb() * limb()) by (nonlinear_arith) requires big < limb() * limb(), y < limb(), big >= 0, y >= 0;
        assert(p == p_hi * limb() + p_lo);
        assert(p_lo + q == carry * limb() + lo);
    }
    uint128 { hi: p_hi + carry, lo }
}

/// The upper 64 bits of the 192-bit product of `x = x_hi * 2^64 + x_lo`
/// and `y`, rounded to odd: when any of the discarded bits but the lowest
/// one is set, the lowest bit of the result is set.
pub fn umul192_upper64_inexact_to_odd(x_hi: u64, x_lo: u64, y: u64) -> (r: u64)
    ensures
        r == round_to_odd((x_hi * limb() + x_lo) * y / limb()),
{
    let u = umul192_upper128(x_hi, x_lo, y);
    let hi = u.hi;
    let lo = u.lo;
    let sticky: u64 = if (lo >> 1) != 0 { 1 } else { 0 };
    proof {
        assert((lo >> 1 != 0) == (lo >= 2)) by (bit_vector);
        assert(hi | 0 == hi) by (bit_vector);
        assert(hi | 1 == if hi % 2 == 0 { hi + 1 } else { hi as int }) by (bit_vector);
        vstd::arithmetic::div_mod::lemma_fundamental_div_mod_converse(u.value(), limb(), hi as int, lo as int);
    }
    hi | sticky
}

/// Dividing `a * d + b` by `d` moves `a` out of the quotient.
pub proof fn lemma_div_offset(a: int, b: int, d: int)
    requires
        d > 0,
    ensures
        (a * d + b) / d == a + b / d,
        (a * d + b) % d == b % d,
{
    vstd::arithmetic::div_mod::lemma_fundamental_div_mod(b, d);
    let q = b / d;
    assert((a + q) * d == a * d + d * q) by (nonlinear_arith);
    vstd::arithmetic::div_mod::lemma_mod_bound(b, d);
    vstd::arithmetic::div_mod::lemma_fundamental_div_mod_converse(a * d + b, d, a + b / d, b % d);
}

/// Drops the low 64 bits of `u` (an integer below 2^128), and sets the
/// lowest bit of what is left when any of the dropped bits but the lowest
/// one is set.
pub open spec fn round_to_odd(u: int) -> int {
    let hi = u / limb();
    let lo = u % limb();
    if lo >= 2 && hi % 2 == 0 { hi + 1 } else { hi }
}

} // verus!
