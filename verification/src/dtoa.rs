//! The conversion of a binary significand and exponent to a decimal
//! significand and exponent by the Schubfach and yy selection, which is
//! designed to pick the shortest decimal that reads back as the same value.

use vstd::prelude::*;

use vstd::arithmetic::power2::{lemma2_to64, pow2};

use crate::digits::pow10;
use crate::render::{
    lemma_decimal_digits_len, lemma_pow10_values, lemma_scientific_ascii, scientific, BUFFER_SIZE,
};
use crate::table::{
    decimal_exponent, exponent_ok, lemma_exponent_ok, limb_radix, pow10_bin_exp, pow10_hi,
    pow10_index, pow10_lo, pow10_significand, scale_shift, significand_cap, DEC_EXP_MIN,
    POW10_SIGNIFICANDS,
};
use crate::wide::{limb, round_to_odd, umul192_upper128, umul192_upper64_inexact_to_odd};

verus! {

/// The implicit leading bit of a normal significand.
pub const IMPLICIT_BIT: u64 = 0x10_0000_0000_0000;

/// `round(log10(3/4) * 2^20)`.
const LOG10_3_OVER_4_SIG: i32 = -131_008;

/// `round(log10(2) * 2^20)`.
const LOG10_2_SIG: i32 = 315_653;

const LOG10_2_EXP: i32 = 20;

/// `round(log2(10) * 2^16) + 1`.
const LOG2_POW10_SIG: i32 = 217_707;

const LOG2_POW10_EXP: i32 = 16;

/// Fractional bits of the fixed-point remainder modulo ten.
const NUM_FRACTIONAL_BITS: u64 = 60;

/// Ten in that fixed point: `10 << 60`.
pub const TEN: u64 = 0xA000_0000_0000_0000;

/// `2^60`, one unit of the fixed-point remainder.
pub open spec fn fixed_one() -> int {
    0x1000_0000_0000_0000
}

/// `bin_sig * 2^bin_exp` is a finite nonzero binary64 value in the form the
/// conversion takes: a normal significand with its implicit bit, or a
/// subnormal one at the least exponent.
pub open spec fn is_binary64_finite(bin_sig: int, bin_exp: int) -> bool {
    ||| 0x10_0000_0000_0000 <= bin_sig < 0x20_0000_0000_0000 && -1074 <= bin_exp <= 971
    ||| 1 <= bin_sig < 0x10_0000_0000_0000 && bin_exp == -1074
}

/// A significand is irregular when it is the implicit bit alone: the value
/// is a power of two, whose lower neighbour is closer than the upper one.
pub open spec fn is_regular(bin_sig: int) -> bool {
    bin_sig != IMPLICIT_BIT
}

/// `bin_sig * 2^bin_exp` is an integer below `2^53`.
pub open spec fn is_small_integer(bin_sig: int, bin_exp: int) -> bool {
    -52 <= bin_exp < 0 && bin_sig as int % pow2((-bin_exp) as nat) as int == 0
}

/// `(10^-d * 2^(127 - pow10_bin_exp) rounded up) * bin_sig * 2^s`, to 128
/// fractional bits: the estimate of the scaled significand that the yy
/// shortcut starts from, with the table entry taken one unit low.
pub open spec fn yy_product(bin_sig: int, bin_exp: int) -> int {
    let d = decimal_exponent(bin_exp, true);
    let s = scale_shift(bin_exp, true);
    (pow10_significand(d) - 1) * (bin_sig * pow2(s as nat)) / limb()
}

/// The integral part of the yy estimate.
pub open spec fn yy_integral(bin_sig: int, bin_exp: int) -> int {
    yy_product(bin_sig, bin_exp) / limb()
}

/// The 64 fractional bits of the yy estimate.
pub open spec fn yy_fractional(bin_sig: int, bin_exp: int) -> int {
    yy_product(bin_sig, bin_exp) % limb()
}

/// The scaled significand modulo ten, in fixed point with 60 fractional bits.
pub open spec fn yy_rem10(bin_sig: int, bin_exp: int) -> int {
    (yy_integral(bin_sig, bin_exp) % 10) * fixed_one() + yy_fractional(bin_sig, bin_exp) / 16
}

/// Half a unit in the last place of the scaled significand, in that fixed
/// point.
pub open spec fn yy_half_ulp(bin_sig: int, bin_exp: int) -> int {
    let d = decimal_exponent(bin_exp, true);
    let s = scale_shift(bin_exp, true);
    pow10_hi(d) / pow2((5 - s) as nat) as int
}

/// The yy shortcut decides: the estimate is far enough from every point
/// where the choice could go either way.
pub open spec fn yy_decides(bin_sig: int, bin_exp: int) -> bool {
    let rem10 = yy_rem10(bin_sig, bin_exp);
    let half_ulp = yy_half_ulp(bin_sig, bin_exp);
    &&& yy_fractional(bin_sig, bin_exp) != 0x8000_0000_0000_0000
    &&& rem10 != half_ulp
    &&& (TEN - (rem10 + half_ulp)) % limb() > 1
}

/// The significand the yy shortcut picks: the closest multiple of ten when
/// it lies in the rounding interval, else the scaled significand rounded to
/// nearest.
pub open spec fn yy_significand(bin_sig: int, bin_exp: int) -> int {
    let integral = yy_integral(bin_sig, bin_exp);
    let digit = integral % 10;
    let rem10 = yy_rem10(bin_sig, bin_exp);
    let half_ulp = yy_half_ulp(bin_sig, bin_exp);
    let round = (rem10 + half_ulp) / fixed_one() >= 10;
    let shorter = integral - digit + if round { 10int } else { 0 };
    let longer = integral + if yy_fractional(bin_sig, bin_exp) >= 0x8000_0000_0000_0000 {
        1int
    } else {
        0
    };
    if half_ulp >= rem10 || round {
        shorter
    } else {
        longer
    }
}

/// `10^-d * 2^(127 - pow10_bin_exp) * m * 2^s`, to 64 fractional bits, the
/// lowest of them rounded to odd.
pub open spec fn scaled_to_odd(bin_exp: int, regular: bool, m: int) -> int {
    let d = decimal_exponent(bin_exp, regular);
    let s = scale_shift(bin_exp, regular);
    round_to_odd(pow10_significand(d) * (m * pow2(s as nat)) / limb())
}

/// The lower end of the rounding interval, scaled by four.
pub open spec fn interval_lower(bin_sig: int, bin_exp: int, regular: bool) -> int {
    scaled_to_odd(bin_exp, regular, 4 * bin_sig - if regular { 2int } else { 1 }) + bin_sig % 2
}

/// The upper end of the rounding interval, scaled by four.
pub open spec fn interval_upper(bin_sig: int, bin_exp: int, regular: bool) -> int {
    scaled_to_odd(bin_exp, regular, 4 * bin_sig + 2) - bin_sig % 2
}

/// The significand Schubfach picks: the multiple of ten below the upper end
/// when it lies in the interval, else the closer of the two neighbours of
/// the scaled significand, the lower one only when it lies in the interval.
pub open spec fn interval_significand(bin_sig: int, bin_exp: int, regular: bool) -> int {
    let lower = interval_lower(bin_sig, bin_exp, regular);
    let upper = interval_upper(bin_sig, bin_exp, regular);
    let shorter = 10 * ((upper / 4) / 10);
    if shorter * 4 >= lower {
        shorter
    } else {
        let scaled = scaled_to_odd(bin_exp, regular, 4 * bin_sig);
        let under = scaled / 4;
        let under_closer = scaled % 4 < 2 || (scaled % 4 == 2 && under % 2 == 0);
        if under_closer && under * 4 >= lower {
            under
        } else {
            under + 1
        }
    }
}

/// The decimal significand that `to_decimal` gives for `bin_sig * 2^bin_exp`.
pub open spec fn decimal_significand(bin_sig: int, bin_exp: int) -> int {
    let regular = is_regular(bin_sig);
    if is_small_integer(bin_sig, bin_exp) {
        bin_sig / pow2((-bin_exp) as nat) as int
    } else if regular && yy_decides(bin_sig, bin_exp) {
        yy_significand(bin_sig, bin_exp)
    } else {
        interval_significand(bin_sig, bin_exp, regular)
    }
}

/// The decimal exponent that `to_decimal` gives for `bin_sig * 2^bin_exp`.
pub open spec fn decimal_exponent_of(bin_sig: int, bin_exp: int) -> int {
    if is_small_integer(bin_sig, bin_exp) {
        0
    } else {
        decimal_exponent(bin_exp, is_regular(bin_sig))
    }
}

/// An arithmetic shift right by 20 divides by 2^20, rounding down.
proof fn lemma_i32_shr_20(v: i32)
    ensures
        (v >> 20i32) as int == v as int / 1_048_576,
{
    let q = v >> 20i32;
    assert(q * 1048576 <= v && v < q * 1048576 + 1048576) by (bit_vector)
        requires q == v >> 20i32;
    vstd::arithmetic::div_mod::lemma_fundamental_div_mod_converse(
        v as int,
        1_048_576,
        q as int,
        v - q * 1048576,
    );
}

/// An arithmetic shift right by 16 divides by 2^16, rounding down.
proof fn lemma_i32_shr_16(v: i32)
    ensures
        (v >> 16i32) as int == v as int / 65_536,
{
    let q = v >> 16i32;
    assert(q * 65536 <= v && v < q * 65536 + 65536) by (bit_vector)
        requires q == v >> 16i32;
    vstd::arithmetic::div_mod::lemma_fundamental_div_mod_converse(v as int, 65_536, q as int, v - q * 65536);
}

/// Bounds on the integral part of `x * y / 2^128` for a normalized 128-bit
/// `x` whose high half is at most `hi`.
proof fn lemma_scaled(x: int, hi: int, y: int)
    requires
        0x8000_0000_0000_0000 * limb() <= x < (hi + 1) * limb(),
        y >= 0,
    ensures
        x * y / limb() / limb() == x * y / (limb() * limb()),
        (x * y / limb() / limb()) * (limb() * limb()) <= x * y,
        x * y < (x * y / limb() / limb() + 1) * (limb() * limb()),
        (x * y / limb() / limb()) * limb() < (hi + 1) * y || y == 0,
        2 * (x * y / limb() / limb()) + 1 >= y,
        x * y / limb() / limb() >= 0,
{
    let l = limb();
    assert(x * y >= 0) by (nonlinear_arith)
        requires x >= 0, y >= 0;
    vstd::arithmetic::div_mod::lemma_div_denominator(x * y, l, l);
    let q = x * y / (l * l);
    vstd::arithmetic::div_mod::lemma_fundamental_div_mod(x * y, l * l);
    vstd::arithmetic::div_mod::lemma_mod_bound(x * y, l * l);
    assert(l * l > 0) by (nonlinear_arith) requires l > 0;
    assert(q >= 0) by (nonlinear_arith)
        requires q == x * y / (l * l), x * y >= 0, l * l > 0;
    assert(q * (l * l) <= x * y && x * y < (q + 1) * (l * l)) by (nonlinear_arith)
        requires x * y == (l * l) * q + (x * y) % (l * l), 0 <= (x * y) % (l * l) < l * l;
    if y > 0 {
        assert(q * l < (hi + 1) * y) by (nonlinear_arith)
            requires q * (l * l) <= x * y, x < (hi + 1) * l, y > 0, l > 0;
    }
    assert(2 * q + 1 >= y) by (nonlinear_arith)
        requires
            x * y < (q + 1) * (l * l),
            0x8000_0000_0000_0000 * l <= x,
            l == 0x1_0000_0000_0000_0000,
            y >= 0;
}

/// The bound `exponent_ok` sets on the high half of the power of ten.
proof fn lemma_cap(hi: int, s: int, regular: bool)
    requires
        1 <= s <= 4,
        hi + 1 <= significand_cap(s, regular),
    ensures
        (hi + 1) * pow2(s as nat) <= (if regular { 10int } else { 14int }) * limb(),
        pow2(s as nat) <= 16,
        pow2(s as nat) >= 2,
{
    lemma2_to64();
    let c: int = if regular { 10 } else { 14 };
    let p = pow2(s as nat) as int;
    if s == 1 {
        assert((hi + 1) * p == (hi + 1) * 2);
    } else if s == 2 {
        assert((hi + 1) * p == (hi + 1) * 4);
    } else if s == 3 {
        assert((hi + 1) * p == (hi + 1) * 8);
    } else {
        assert((hi + 1) * p == (hi + 1) * 16);
    }
}

/// The yy shortcut: when the estimate of the scaled significand decides the
/// result, that result.
fn yy_estimate(bin_sig: u64, bin_exp: i32, p10_hi: u64, p10_lo: u64, shift: i32) -> (r: Option<u64>)
    requires
        is_binary64_finite(bin_sig as int, bin_exp as int),
        is_regular(bin_sig as int),
        exponent_ok(bin_exp as int, true),
        p10_hi == pow10_hi(decimal_exponent(bin_exp as int, true)),
        p10_lo == pow10_lo(decimal_exponent(bin_exp as int, true)),
        shift == scale_shift(bin_exp as int, true),
    ensures
        r is Some <==> yy_decides(bin_sig as int, bin_exp as int),
        r matches Some(v) ==> v == yy_significand(bin_sig as int, bin_exp as int) && 0 < v < pow10(17),
{
    let ghost d = decimal_exponent(bin_exp as int, true);
    let ghost l = limb();
    proof {
        lemma2_to64();
        lemma_pow10_values();
        lemma_cap(p10_hi as int, shift as int, true);
        assert(bin_sig * pow2(shift as nat) <= u64::MAX) by (nonlinear_arith)
            requires bin_sig < 0x20_0000_0000_0000, pow2(shift as nat) <= 16;
        vstd::bits::lemma_u64_shl_is_mul(bin_sig, shift as u64);
    }
    let y = bin_sig << (shift as u64);
    let u = umul192_upper128(p10_hi, p10_lo - 1, y);
    let integral = u.hi;
    let fractional = u.lo;
    let ghost x = pow10_significand(d) - 1;
    proof {
        assert(x == p10_hi * l + (p10_lo - 1));
        assert(u.value() == yy_product(bin_sig as int, bin_exp as int));
        vstd::arithmetic::div_mod::lemma_fundamental_div_mod_converse(u.value(), l, integral as int, fractional as int);
        lemma_scaled(x, p10_hi as int, y as int);
        assert(integral == x * y / l / l);
        assert(y >= 2 * bin_sig) by (nonlinear_arith)
            requires y == bin_sig * pow2(shift as nat), pow2(shift as nat) >= 2, bin_sig >= 0;
        // The integral part stays below ten times the significand.
        assert(integral < 10 * bin_sig) by (nonlinear_arith)
            requires
                integral * l < (p10_hi + 1) * y,
                y == bin_sig * pow2(shift as nat),
                (p10_hi + 1) * pow2(shift as nat) <= 10 * l,
                l > 0,
                bin_sig >= 1;
    }
    let digit = integral % 10;
    let rem10 = (digit << NUM_FRACTIONAL_BITS) | (fractional >> 4);
    proof {
        assert((digit << 60u64) | (fractional >> 4u64) == digit * 0x1000_0000_0000_0000 + fractional / 16)
            by (bit_vector)
            requires digit < 10;
        assert(rem10 == yy_rem10(bin_sig as int, bin_exp as int));
        vstd::bits::lemma_u64_shr_is_div(p10_hi, (5 - shift) as u64);
    }
    let half_ulp = p10_hi >> ((5 - shift) as u64);
    proof {
        assert(half_ulp == yy_half_ulp(bin_sig as int, bin_exp as int));
        // Half an ulp is at most half of ten in the fixed point.
        let p = pow2((5 - shift) as nat) as int;
        if shift == 1 {
            assert(p == 16);
        } else if shift == 2 {
            assert(p == 8);
        } else if shift == 3 {
            assert(p == 4);
        } else {
            assert(p == 2);
        }
        assert(half_ulp <= 5 * fixed_one()) by (nonlinear_arith)
            requires
                half_ulp == p10_hi as int / p,
                p * pow2(shift as nat) == 32,
                (p10_hi + 1) * pow2(shift as nat) <= 10 * l,
                l == 0x1_0000_0000_0000_0000,
                p > 0;
    }
    let upper = rem10 + half_ulp;
    let ten_minus_upper = TEN.wrapping_sub(upper);
    proof {
        vstd::arithmetic::div_mod::lemma_fundamental_div_mod_converse(
            TEN - upper,
            l,
            if TEN - upper < 0 { -1int } else { 0 },
            ten_minus_upper as int,
        );
    }
    if fractional != 0x8000_0000_0000_0000 && rem10 != half_ulp && ten_minus_upper > 1 {
        proof {
            assert(upper >> 60u64 == upper / 0x1000_0000_0000_0000) by (bit_vector);
        }
        let round = (upper >> NUM_FRACTIONAL_BITS) >= 10;
        let shorter = integral - digit + if round { 10 } else { 0 };
        let longer = integral + if fractional >= 0x8000_0000_0000_0000 { 1 } else { 0 };
        let v = if half_ulp >= rem10 || round { shorter } else { longer };
        proof {
            assert(integral == yy_integral(bin_sig as int, bin_exp as int));
            assert(fractional == yy_fractional(bin_sig as int, bin_exp as int));
            assert(v == yy_significand(bin_sig as int, bin_exp as int));
            // The result is positive.
            if bin_sig >= 0x10_0000_0000_0000 {
                assert(integral >= 10);
            } else {
                // The one subnormal exponent: the scaled significand is at
                // least four, and half an ulp below four.
                assert(bin_exp == -1074);
                assert(d == -324);
                assert(shift == 3);
                assert(x * 8 >= 4 * (l * l));
                assert(integral >= 4) by (nonlinear_arith)
                    requires
                        x * y < (integral + 1) * (l * l),
                        x * 8 >= 4 * (l * l),
                        y == bin_sig * 8,
                        bin_sig >= 1,
                        l > 0;
                assert(half_ulp < 4 * fixed_one());
            }
        }
        return Some(v);
    }
    None
}

/// `round_to_odd` of a product moves the integral part up by at most one.
proof fn lemma_odd_bounds(x: int, y: int)
    requires
        x >= 0,
        y >= 0,
    ensures
        x * y / limb() / limb() <= round_to_odd(x * y / limb()) <= x * y / limb() / limb() + 1,
{
}

/// Schubfach proper: the candidates from the rounding interval of the value.
fn schubfach_interval(
    bin_sig: u64,
    bin_exp: i32,
    regular: bool,
    p10_hi: u64,
    p10_lo: u64,
    shift: i32,
) -> (r: u64)
    requires
        is_binary64_finite(bin_sig as int, bin_exp as int),
        regular == is_regular(bin_sig as int),
        exponent_ok(bin_exp as int, regular),
        p10_hi == pow10_hi(decimal_exponent(bin_exp as int, regular)),
        p10_lo == pow10_lo(decimal_exponent(bin_exp as int, regular)),
        shift == scale_shift(bin_exp as int, regular),
    ensures
        r == interval_significand(bin_sig as int, bin_exp as int, regular),
        0 < r < pow10(17),
{
    let ghost d = decimal_exponent(bin_exp as int, regular);
    let ghost l = limb();
    let ghost c: int = if regular { 10 } else { 14 };
    let ghost x = pow10_significand(d);
    let ghost p = pow2(shift as nat) as int;
    proof {
        lemma2_to64();
        lemma_pow10_values();
        lemma_cap(p10_hi as int, shift as int, regular);
        assert(x == p10_hi * l + p10_lo);
        assert(bin_sig << 2u64 == bin_sig * 4) by (bit_vector)
            requires bin_sig < 0x20_0000_0000_0000u64;
    }
    let sh = shift as u64;
    let bin_sig_shifted = bin_sig << 2;
    let lsb = bin_sig & 1;
    proof {
        assert(bin_sig & 1 == bin_sig % 2) by (bit_vector);
    }
    // The lower end of the rounding interval.
    let m_lo = bin_sig_shifted - (if regular { 1 } else { 0 } + 1);
    proof {
        assert(m_lo * p <= u64::MAX) by (nonlinear_arith)
            requires m_lo < 0x80_0000_0000_0000, p <= 16;
        vstd::bits::lemma_u64_shl_is_mul(m_lo, sh);
    }
    let y_lo = m_lo << sh;
    let odd_lo = umul192_upper64_inexact_to_odd(p10_hi, p10_lo, y_lo);
    proof {
        lemma_scaled(x, p10_hi as int, y_lo as int);
        lemma_odd_bounds(x, y_lo as int);
        assert(y_lo >= 4) by (nonlinear_arith)
            requires y_lo == m_lo * p, m_lo >= 2, p >= 2;
        assert((x * y_lo / l / l) * l < (p10_hi + 1) * y_lo);
        assert(x * y_lo / l / l < c * m_lo) by (nonlinear_arith)
            requires
                (x * y_lo / l / l) * l < (p10_hi + 1) * y_lo,
                y_lo == m_lo * p,
                (p10_hi + 1) * p <= c * l,
                l > 0;
    }
    let lower = odd_lo + lsb;
    // The upper end of the rounding interval.
    let m_up = bin_sig_shifted + 2;
    proof {
        assert(m_up * p <= u64::MAX) by (nonlinear_arith)
            requires m_up < 0x80_0000_0000_0004, p <= 16;
        vstd::bits::lemma_u64_shl_is_mul(m_up, sh);
    }
    let y_up = m_up << sh;
    let odd_up = umul192_upper64_inexact_to_odd(p10_hi, p10_lo, y_up);
    proof {
        lemma_scaled(x, p10_hi as int, y_up as int);
        lemma_odd_bounds(x, y_up as int);
        assert(y_up >= 12) by (nonlinear_arith)
            requires y_up == m_up * p, m_up >= 6, p >= 2;
        assert(x * y_up / l / l < c * m_up) by (nonlinear_arith)
            requires
                (x * y_up / l / l) * l < (p10_hi + 1) * y_up,
                y_up == m_up * p,
                (p10_hi + 1) * p <= c * l,
                l > 0;
    }
    let upper = odd_up - lsb;
    proof {
        assert(upper >> 2u64 == upper / 4) by (bit_vector);
    }
    let shorter = 10 * ((upper >> 2) / 10);
    proof {
        assert(shorter << 2u64 == shorter * 4) by (bit_vector)
            requires shorter <= 0x1000_0000_0000_0000u64;
        assert(lower == interval_lower(bin_sig as int, bin_exp as int, regular));
        assert(upper == interval_upper(bin_sig as int, bin_exp as int, regular));
    }
    if (shorter << 2) >= lower {
        proof {
            assert(shorter * 4 <= upper);
            if regular {
                assert(bin_sig <= 0x1f_ffff_ffff_ffff);
            } else {
                assert(bin_sig == 0x10_0000_0000_0000);
            }
        }
        return shorter;
    }
    // The two candidates next to the scaled significand.
    let m_mid = bin_sig_shifted;
    proof {
        assert(m_mid * p <= u64::MAX) by (nonlinear_arith)
            requires m_mid < 0x80_0000_0000_0000, p <= 16;
        vstd::bits::lemma_u64_shl_is_mul(m_mid, sh);
    }
    let y_mid = m_mid << sh;
    let scaled_sig = umul192_upper64_inexact_to_odd(p10_hi, p10_lo, y_mid);
    proof {
        lemma_scaled(x, p10_hi as int, y_mid as int);
        lemma_odd_bounds(x, y_mid as int);
        assert(y_mid >= 8) by (nonlinear_arith)
            requires y_mid == m_mid * p, m_mid >= 4, p >= 2;
        assert(x * y_mid / l / l < c * m_mid) by (nonlinear_arith)
            requires
                (x * y_mid / l / l) * l < (p10_hi + 1) * y_mid,
                y_mid == m_mid * p,
                (p10_hi + 1) * p <= c * l,
                l > 0;
        assert(scaled_sig >> 2u64 == scaled_sig / 4) by (bit_vector);
    }
    let dec_sig_under = scaled_sig >> 2;
    let dec_sig_over = dec_sig_under + 1;
    let both = dec_sig_under + dec_sig_over;
    proof {
        assert(both << 1u64 == both * 2) by (bit_vector)
            requires both <= 0x3000_0000_0000_0000u64;
    }
    let w = scaled_sig.wrapping_sub(both << 1);
    let dist = #[verifier::truncate] (w as i64);
    proof {
        let rem = scaled_sig % 4;
        if rem >= 2 {
            assert(w == rem - 2);
            if w == 0 {
                assert(w as i64 == 0) by (bit_vector) requires w == 0u64;
            } else {
                assert(w as i64 == 1) by (bit_vector) requires w == 1u64;
            }
        } else {
            assert(w >= 0xFFFF_FFFF_FFFF_FFFE);
            assert((w as i64) < 0) by (bit_vector) requires w >= 0xFFFF_FFFF_FFFF_FFFEu64;
        }
        assert(dec_sig_under & 1 == dec_sig_under % 2) by (bit_vector);
        assert(dec_sig_under << 2u64 == dec_sig_under * 4) by (bit_vector)
            requires dec_sig_under <= 0x1000_0000_0000_0000u64;
    }
    let under_closer = dist < 0 || (dist == 0 && (dec_sig_under & 1) == 0);
    let under_in = (dec_sig_under << 2) >= lower;
    proof {
        if regular {
            assert(bin_sig <= 0x1f_ffff_ffff_ffff);
        } else {
            assert(bin_sig == 0x10_0000_0000_0000);
        }
    }
    if under_closer && under_in {
        dec_sig_under
    } else {
        dec_sig_over
    }
}

/// Converts the finite nonzero value `bin_sig * 2^bin_exp` to a decimal
/// `dec_sig * 10^dec_exp`: integers below `2^53` exactly, other values by
/// the yy shortcut where it decides and by Schubfach otherwise. How close
/// the decimal comes to the value is `lemma_decimal_near`.
pub fn to_decimal(bin_sig: u64, bin_exp: i32, regular: bool) -> (r: (u64, i32))
    requires
        is_binary64_finite(bin_sig as int, bin_exp as int),
        regular == is_regular(bin_sig as int),
    ensures
        r.0 == decimal_significand(bin_sig as int, bin_exp as int),
        r.1 == decimal_exponent_of(bin_sig as int, bin_exp as int),
        0 < r.0 < pow10(17),
        -324 <= r.1 <= 292,
{
    proof {
        lemma_exponent_ok(bin_exp as int, regular);
        lemma_pow10_values();
    }
    // Handle small integers.
    if -52 <= bin_exp && bin_exp < 0 {
        let k = (-bin_exp) as u64;
        let f = bin_sig >> k;
        proof {
            vstd::bits::lemma_u64_shr_is_div(bin_sig, k);
            vstd::arithmetic::power2::lemma_pow2_pos(k as nat);
            let p = pow2(k as nat) as int;
            vstd::arithmetic::div_mod::lemma_fundamental_div_mod(bin_sig as int, p);
            vstd::arithmetic::div_mod::lemma_mod_bound(bin_sig as int, p);
            assert(f * p <= bin_sig) by (nonlinear_arith)
                requires bin_sig == p * f + bin_sig as int % p, bin_sig as int % p >= 0;
            vstd::bits::lemma_u64_shl_is_mul(f, k);
            assert(bin_sig >= 0x10_0000_0000_0000);
            vstd::arithmetic::power2::lemma2_to64_rest();
            if k < 52 {
                vstd::arithmetic::power2::lemma_pow2_strictly_increases(k as nat, 52);
            }
            assert(f >= 1) by (nonlinear_arith)
                requires bin_sig == p * f + bin_sig as int % p, bin_sig as int % p < p, p <= bin_sig, p > 0;
        }
        if (f << k) == bin_sig {
            return (f, 0);
        }
    }
    // Compute the decimal exponent as floor(log10(2**bin_exp)) if regular or
    // floor(log10(3/4 * 2**bin_exp)) otherwise, without branching.
    let v = bin_exp * LOG10_2_SIG + (if regular { 0 } else { 1 }) * LOG10_3_OVER_4_SIG;
    let dec_exp = v >> LOG10_2_EXP;
    proof {
        lemma_i32_shr_20(v);
        assert(dec_exp == decimal_exponent(bin_exp as int, regular));
    }
    let (p10_hi, p10_lo) = POW10_SIGNIFICANDS[(-dec_exp - DEC_EXP_MIN) as usize];
    // pow10_bin_exp = floor(log2(10**-dec_exp))
    let w = -dec_exp * LOG2_POW10_SIG;
    let p10_bin_exp = w >> LOG2_POW10_EXP;
    proof {
        lemma_i32_shr_16(w);
        assert(p10_bin_exp == pow10_bin_exp(dec_exp as int));
    }
    // Shift to give the product of the significand and the power of ten a
    // fixed 128-bit fractional part.
    let shift = bin_exp + p10_bin_exp + 1;
    if regular {
        match yy_estimate(bin_sig, bin_exp, p10_hi, p10_lo, shift) {
            Some(dec_sig) => {
                return (dec_sig, dec_exp);
            },
            None => {},
        }
    }
    (schubfach_interval(bin_sig, bin_exp, regular, p10_hi, p10_lo, shift), dec_exp)
}

/// The biased exponent field of a binary64 bit pattern.
pub open spec fn exponent_field(bits: u64) -> int {
    (bits / 0x10_0000_0000_0000) as int % 2048
}

/// The significand field of a binary64 bit pattern.
pub open spec fn significand_field(bits: u64) -> int {
    bits as int % 0x10_0000_0000_0000
}

/// The sign bit of a binary64 bit pattern is set.
pub open spec fn is_negative(bits: u64) -> bool {
    bits >= 0x8000_0000_0000_0000
}

/// A `-` for a set sign bit.
pub open spec fn sign_prefix(bits: u64) -> Seq<u8> {
    if is_negative(bits) {
        seq![0x2du8]
    } else {
        Seq::empty()
    }
}

/// The significand of a finite nonzero bit pattern, with the implicit bit
/// of a normal value.
pub open spec fn binary_significand(bits: u64) -> int {
    if exponent_field(bits) == 0 {
        significand_field(bits)
    } else {
        significand_field(bits) + IMPLICIT_BIT
    }
}

/// The binary exponent of a finite nonzero bit pattern.
pub open spec fn binary_exponent(bits: u64) -> int {
    if exponent_field(bits) == 0 {
        -1074
    } else {
        exponent_field(bits) - 1075
    }
}

/// The text for the binary64 value with bit pattern `bits`: `NaN` for every
/// NaN, `inf`, `0`, or the decimal in scientific notation, with a `-` for a
/// negative value.
pub open spec fn rendering(bits: u64) -> Seq<u8> {
    let e = exponent_field(bits);
    let m = significand_field(bits);
    if e == 2047 {
        if m == 0 {
            sign_prefix(bits) + seq![0x69u8, 0x6eu8, 0x66u8]
        } else {
            seq![0x4eu8, 0x61u8, 0x4eu8]
        }
    } else if e == 0 && m == 0 {
        sign_prefix(bits) + seq![0x30u8]
    } else {
        let bin_sig = binary_significand(bits);
        let bin_exp = binary_exponent(bits);
        sign_prefix(bits) + scientific(
            decimal_significand(bin_sig, bin_exp) as nat,
            decimal_exponent_of(bin_sig, bin_exp),
        )
    }
}

/// Writes the rendering of the binary64 value with bit pattern `bits`
/// (the decimal that the selection picks, in scientific notation) to the
/// start of `buf`, and returns its length.
pub fn dtoa(buf: &mut [u8; BUFFER_SIZE], bits: u64) -> (len: usize)
    ensures
        len <= BUFFER_SIZE - 1,
        final(buf)@.take(len as int) == rendering(bits),
        crate::is_ascii_bytes(rendering(bits)),
{
    buf[0] = 0x2d;
    let pos = (bits >> 63) as usize;
    let mut bin_sig = bits & (IMPLICIT_BIT - 1);
    let mut regular = bin_sig != 0;
    proof {
        assert(bits >> 52u64 <= 4095) by (bit_vector);
    }
    let mut bin_exp = ((bits >> 52) as i32) & 0x7ff;
    proof {
        assert(bits >> 63u64 == if bits >= 0x8000_0000_0000_0000u64 { 1u64 } else { 0u64 }) by (bit_vector);
        assert(bits & 0xf_ffff_ffff_ffffu64 == bits % 0x10_0000_0000_0000) by (bit_vector);
        assert((((bits >> 52u64) as i32) & 0x7ffi32) as int == (bits / 0x10_0000_0000_0000) % 2048)
            by (bit_vector);
    }
    if ((bin_exp + 1) & 0x7ff) <= 1 {
        proof {
            assert(0 <= bin_exp <= 0x7ff ==> ((((bin_exp + 1) as i32) & 0x7ffi32) <= 1 <==> (
            bin_exp == 0 || bin_exp == 0x7ff))) by (bit_vector);
        }
        if bin_exp != 0 {
            if bin_sig == 0 {
                buf[pos] = 0x69;
                buf[pos + 1] = 0x6e;
                buf[pos + 2] = 0x66;
                proof {
                    assert(buf@.take(pos + 3) =~= rendering(bits));
                }
                return pos + 3;
            }
            buf[0] = 0x4e;
            buf[1] = 0x61;
            buf[2] = 0x4e;
            proof {
                assert(buf@.take(3) =~= rendering(bits));
            }
            return 3;
        }
        if bin_sig == 0 {
            buf[pos] = 0x30;
            proof {
                assert(buf@.take(pos + 1) =~= rendering(bits));
            }
            return pos + 1;
        }
        // Handle subnormals.
        proof {
            assert(bin_sig | 0x10_0000_0000_0000u64 == bin_sig + 0x10_0000_0000_0000) by (bit_vector)
                requires bin_sig < 0x10_0000_0000_0000u64;
        }
        bin_sig = bin_sig | IMPLICIT_BIT;
        bin_exp = 1;
        regular = true;
    } else {
        proof {
            assert(0 <= bin_exp <= 0x7ff ==> ((((bin_exp + 1) as i32) & 0x7ffi32) <= 1 <==> (
            bin_exp == 0 || bin_exp == 0x7ff))) by (bit_vector);
        }
    }
    proof {
        assert(bin_sig < 0x10_0000_0000_0000 ==> bin_sig ^ 0x10_0000_0000_0000u64 == bin_sig
            + 0x10_0000_0000_0000) by (bit_vector);
        assert(0x10_0000_0000_0000 <= bin_sig < 0x20_0000_0000_0000 ==> bin_sig
            ^ 0x10_0000_0000_0000u64 == bin_sig - 0x10_0000_0000_0000) by (bit_vector);
    }
    bin_sig = bin_sig ^ IMPLICIT_BIT;
    bin_exp = bin_exp - 1075;
    let (dec_sig, dec_exp) = to_decimal(bin_sig, bin_exp, regular);
    proof {
        lemma_decimal_digits_len(dec_sig as nat, 17);
    }
    let ghost before = buf@;
    let len = crate::render::write(buf, pos, dec_sig, dec_exp);
    proof {
        let sci = scientific(dec_sig as nat, dec_exp as int);
        lemma_scientific_ascii(dec_sig as nat, dec_exp as int);
        let r = rendering(bits);
        assert forall|i: int| 0 <= i < r.len() implies r[i] < 128 by {
            if is_negative(bits) && i > 0 {
                assert(r[i] == sci[i - 1]);
            } else if !is_negative(bits) {
                assert(r[i] == sci[i]);
            }
        }
        assert(before.take(pos as int) =~= sign_prefix(bits));
        assert(buf@.take(len as int) =~= buf@.take(pos as int) + buf@.subrange(pos as int, len as int));
    }
    len
}

/// The sign bit does not change the fields that encode the magnitude.
proof fn lemma_sign_bit_fields(bits: u64)
    requires
        !is_negative(bits),
    ensures
        is_negative((bits + 0x8000_0000_0000_0000) as u64),
        exponent_field((bits + 0x8000_0000_0000_0000) as u64) == exponent_field(bits),
        significand_field((bits + 0x8000_0000_0000_0000) as u64) == significand_field(bits),
{
    let neg = (bits + 0x8000_0000_0000_0000) as u64;
    assert(neg == bits + 0x8000_0000_0000_0000);
    crate::wide::lemma_div_offset(2048, bits as int, 0x10_0000_0000_0000);
    crate::wide::lemma_div_offset(1, (bits / 0x10_0000_0000_0000) as int, 2048);
    assert(neg as int == 2048 * 0x10_0000_0000_0000 + bits);
}

/// A negative value renders as its magnitude with a `-` in front (NaN, which
/// renders without a sign, aside).
pub proof fn lemma_rendering_negation(bits: u64)
    requires
        !is_negative(bits),
        !(exponent_field(bits) == 2047 && significand_field(bits) != 0),
    ensures
        rendering((bits + 0x8000_0000_0000_0000) as u64) == seq![0x2du8] + rendering(bits),
{
    let neg = (bits + 0x8000_0000_0000_0000) as u64;
    lemma_sign_bit_fields(bits);
    assert(sign_prefix(neg) == seq![0x2du8] + sign_prefix(bits));
    assert(binary_significand(neg) == binary_significand(bits));
    assert(binary_exponent(neg) == binary_exponent(bits));
    let e = exponent_field(bits);
    let m = significand_field(bits);
    if e == 2047 {
        assert(rendering(neg) =~= seq![0x2du8] + rendering(bits));
    } else if e == 0 && m == 0 {
        assert(rendering(neg) =~= seq![0x2du8] + rendering(bits));
    } else {
        let sci = scientific(
            decimal_significand(binary_significand(bits), binary_exponent(bits)) as nat,
            decimal_exponent_of(binary_significand(bits), binary_exponent(bits)),
        );
        assert(rendering(neg) == sign_prefix(neg) + sci);
        assert(rendering(bits) == sign_prefix(bits) + sci);
        assert(rendering(neg) =~= seq![0x2du8] + rendering(bits));
    }
}

/// An integer below `2^53` keeps its exact value: its decimal is the integer
/// itself, with exponent zero.
pub proof fn lemma_small_integer_exact(bin_sig: int, bin_exp: int)
    requires
        is_small_integer(bin_sig, bin_exp),
    ensures
        decimal_exponent_of(bin_sig, bin_exp) == 0,
        decimal_significand(bin_sig, bin_exp) * pow2((-bin_exp) as nat) == bin_sig,
{
    let p = pow2((-bin_exp) as nat) as int;
    vstd::arithmetic::power2::lemma_pow2_pos((-bin_exp) as nat);
    vstd::arithmetic::div_mod::lemma_fundamental_div_mod(bin_sig, p);
    assert((bin_sig / p) * p == p * (bin_sig / p)) by (nonlinear_arith);
}

/// What the interval computation makes of `c` at binary exponent zero for
/// the irregular significand: the entry for `10^1` times `c * 2^4`, to 64
/// fractional bits, is exactly `10 * c`.
proof fn lemma_scaled_power_of_ten(c: int)
    requires
        0 < c < 0x100_0000_0000_0000,
        pow10_significand(-1) == 0xa000_0000_0000_0000_0000_0000_0000_0001int,
        pow2(4) == 16,
    ensures
        scaled_to_odd(0, false, c) == 10 * c,
{
    assert(decimal_exponent(0, false) == -1);
    assert(pow10_bin_exp(-1) == 3);
    assert(scale_shift(0, false) == 4);
    let x = pow10_significand(-1) * (c * pow2(4));
    assert(x == (10 * c * limb()) * limb() + 16 * c) by (nonlinear_arith)
        requires
            x == 0xa000_0000_0000_0000_0000_0000_0000_0001int * (c * 16),
    ;
    vstd::arithmetic::div_mod::lemma_fundamental_div_mod_converse(x, limb(), 10 * c * limb(), 16 * c);
    vstd::arithmetic::div_mod::lemma_fundamental_div_mod_converse(10 * c * limb(), limb(), 10 * c, 0);
}

/// An integer from `2^52` up to `2^53` keeps its exact value: its decimal
/// is the integer itself with exponent zero, or, for `2^52`, whose lower
/// neighbour is closer, ten times the integer with exponent minus one.
pub proof fn lemma_integer_53_bits_exact(bin_sig: int)
    requires
        0x10_0000_0000_0000 <= bin_sig < 0x20_0000_0000_0000,
    ensures
        decimal_exponent_of(bin_sig, 0) == if is_regular(bin_sig) { 0int } else { -1 },
        decimal_significand(bin_sig, 0) == if is_regular(bin_sig) { bin_sig } else { 10 * bin_sig },
{
    lemma2_to64();
    let m = bin_sig;
    assert(!is_small_integer(m, 0));
    if is_regular(m) {
        assert(decimal_exponent(0, true) == 0);
        assert(pow10_bin_exp(0) == 0);
        assert(scale_shift(0, true) == 1);
        assert(pow10_hi(0) == 0x8000_0000_0000_0000);
        assert(pow10_lo(0) == 1);
        assert(pow10_significand(0) - 1 == 0x8000_0000_0000_0000_0000_0000_0000_0000);
        assert(pow2(1) == 2);
        let x = (pow10_significand(0) - 1) * (m * pow2(1));
        assert(x == (m * limb()) * limb()) by (nonlinear_arith)
            requires
                x == 0x8000_0000_0000_0000_0000_0000_0000_0000int * (m * 2),
                limb() == 0x1_0000_0000_0000_0000int,
        ;
        vstd::arithmetic::div_mod::lemma_fundamental_div_mod_converse(x, limb(), m * limb(), 0);
        assert(yy_product(m, 0) == m * limb());
        vstd::arithmetic::div_mod::lemma_fundamental_div_mod_converse(m * limb(), limb(), m, 0);
        assert(yy_integral(m, 0) == m);
        assert(yy_fractional(m, 0) == 0);
        let digit = m % 10;
        assert(yy_rem10(m, 0) == digit * fixed_one());
        assert(pow2((5 - scale_shift(0, true)) as nat) == 16);
        assert(yy_half_ulp(m, 0) == 0x800_0000_0000_0000);
        assert(yy_decides(m, 0));
        assert(yy_significand(m, 0) == m);
    } else {
        assert(m == 0x10_0000_0000_0000);
        assert(decimal_exponent(0, false) == -1);
        assert(pow10_bin_exp(-1) == 3);
        assert(scale_shift(0, false) == 4);
        assert(pow10_hi(-1) == 0xa000_0000_0000_0000);
        assert(pow10_lo(-1) == 1);
        let p = pow10_significand(-1);
        assert(p == 0xa000_0000_0000_0000_0000_0000_0000_0001int);
        let lo_m = 4 * m - 1;
        let hi_m = 4 * m + 2;
        assert(pow2(4) == 16) by {
            vstd::arithmetic::power2::lemma2_to64();
        }
        lemma_scaled_power_of_ten(lo_m);
        lemma_scaled_power_of_ten(hi_m);
        lemma_scaled_power_of_ten(4 * m);
        assert(interval_lower(m, 0, false) == 10 * lo_m);
        assert(interval_upper(m, 0, false) == 10 * hi_m);
        assert(interval_upper(m, 0, false) / 4 == 10 * m + 5);
        assert(interval_significand(m, 0, false) == 10 * m);
    }
}

} // verus!
