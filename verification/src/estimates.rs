//! How close the fixed-point estimates of the interval path come to the
//! exact values they stand for.

use vstd::prelude::*;

use vstd::arithmetic::power2::{lemma2_to64, lemma_pow2_adds, lemma_pow2_pos, lemma_pow2_unfold, pow2};

use crate::digits::pow10;
use crate::decimal_exponents::lemma_decimal_exponent_laws;
use crate::dtoa::{
    interval_lower, interval_significand, interval_upper, is_binary64_finite, is_regular,
    decimal_exponent_of, decimal_significand, is_small_integer, lemma_small_integer_exact,
    scaled_to_odd, yy_decides, yy_fractional, yy_half_ulp, yy_integral, yy_product, yy_rem10,
    yy_significand,
};
use crate::render::lemma_pow10_ge;
use crate::exponents::{lemma_pow_bases, lemma_scaled, lemma_table_laws, pos, pow2_of, scaled_lt, is_pow10_overestimate};
use crate::table::{pow10_hi, pow10_lo, decimal_exponent, exponent_ok, lemma_exponent_ok, pow10_bin_exp, pow10_significand, scale_shift};
use crate::wide::{limb, round_to_odd};

verus! {

/// `pow2_of` and vstd's `pow2` agree.
proof fn lemma_pow2_of_is_pow2(n: nat)
    ensures
        pow2_of(n) == pow2(n),
    decreases n,
{
    if n == 0 {
        lemma2_to64();
    } else {
        lemma_pow2_of_is_pow2((n - 1) as nat);
        lemma_pow2_unfold(n);
    }
}

/// Rounding to odd after dropping 128 bits stays within one unit either
/// way: `(r - 1) * 2^128 <= a < (r + 1) * 2^128`.
proof fn lemma_round_to_odd_bounds(a: int)
    requires
        a >= 0,
    ensures
        (round_to_odd(a / limb()) - 1) * (limb() * limb()) <= a,
        a < (round_to_odd(a / limb()) + 1) * (limb() * limb()),
{
    let l = limb();
    let u = a / l;
    let hi = u / l;
    let r = round_to_odd(u);
    vstd::arithmetic::div_mod::lemma_fundamental_div_mod(a, l);
    vstd::arithmetic::div_mod::lemma_fundamental_div_mod(u, l);
    assert(hi <= r <= hi + 1);
    assert(hi * (l * l) <= a && a < (hi + 1) * (l * l)) by (nonlinear_arith)
        requires
            l > 0,
            a == l * u + a % l,
            0 <= a % l < l,
            u == l * hi + u % l,
            0 <= u % l < l,
    ;
    assert((r - 1) * (l * l) <= hi * (l * l) && (hi + 1) * (l * l) <= (r + 1) * (l * l)) by (nonlinear_arith)
        requires
            hi <= r <= hi + 1,
            l > 0,
    ;
}

/// A strict order between multiples of a positive number holds of the
/// factors.
proof fn lemma_cancel(u: int, v: int, w: int)
    requires
        w > 0,
        u * w < v * w,
    ensures
        u < v,
{
    assert(u < v) by (nonlinear_arith)
        requires
            w > 0,
            u * w < v * w,
    ;
}

/// The interval path's estimate of `c * 2^bin_exp` scaled by `10^-d`, where
/// `d` is the decimal exponent, misses it by less than two units below and
/// one unit above: `r - 2 < c * 2^bin_exp * 10^-d < r + 1`. The three
/// estimates of the interval path are of this form, with `c` four times the
/// significand, and four times it less or plus half the gaps to the
/// neighbouring values.
pub proof fn lemma_interval_estimate(bin_exp: int, regular: bool, c: int)
    requires
        -1074 <= bin_exp <= 971,
        0 < c < 0x100_0000_0000_0000,
    ensures
        scaled_lt(
            scaled_to_odd(bin_exp, regular, c) - 2,
            0,
            0,
            c,
            bin_exp,
            -decimal_exponent(bin_exp, regular),
        ),
        scaled_lt(
            c,
            bin_exp,
            -decimal_exponent(bin_exp, regular),
            scaled_to_odd(bin_exp, regular, c) + 1,
            0,
            0,
        ),
{
    lemma_power_fraction(bin_exp, regular);
    let d = decimal_exponent(bin_exp, regular);
    let s = scale_shift(bin_exp, regular);
    let p = pow10_significand(d);
    let en = power_num(bin_exp, regular);
    let ed = power_den(bin_exp, regular);
    let q = plain_factor(bin_exp, -d);
    let g = scaled_factor(bin_exp, -d);
    lemma_compare(scaled_to_odd(bin_exp, regular, c) - 2, c, bin_exp, -d);
    lemma_compare(scaled_to_odd(bin_exp, regular, c) + 1, c, bin_exp, -d);
    let l = limb();
    let big = l * l;
    lemma2_to64();
    let p2 = pow2(s as nat) as int;
    let x = c * p2;
    assert(0 < x < big) by (nonlinear_arith)
        requires
            x == c * p2,
            0 < c < 0x100_0000_0000_0000,
            0 < p2 <= 16,
            big == 0x1_0000_0000_0000_0000int * 0x1_0000_0000_0000_0000int,
    ;
    assert(en * p2 * q == ed * big * g);
    assert(p > 0);
    let a = p * x;
    assert(a >= 0) by (nonlinear_arith)
        requires
            p > 0,
            x > 0,
            a == p * x,
    ;
    lemma_round_to_odd_bounds(a);
    let r = scaled_to_odd(bin_exp, regular, c);
    assert(r == round_to_odd(a / l));
    assert(en * x * q == (c * g) * (ed * big)) by (nonlinear_arith)
        requires
            en * p2 * q == ed * big * g,
            x == c * p2,
    ;
    assert(ed * big > 0) by (nonlinear_arith)
        requires
            ed > 0,
            big > 0,
    ;
    // From above: en * x < ed * a < ed * (r + 1) * big.
    assert(en * x * q < ((r + 1) * q) * (ed * big)) by (nonlinear_arith)
        requires
            en < p * ed,
            a == p * x,
            a < (r + 1) * big,
            x > 0,
            ed > 0,
            q > 0,
    ;
    lemma_cancel(c * g, (r + 1) * q, ed * big);
    // From below: en * x >= ed * a - ed * x > ed * (r - 2) * big.
    assert(((r - 2) * q) * (ed * big) < en * x * q) by (nonlinear_arith)
        requires
            (p - 1) * ed <= en,
            a == p * x,
            (r - 1) * big <= a,
            0 < x < big,
            ed > 0,
            q > 0,
    ;
    lemma_cancel((r - 2) * q, c * g, ed * big);
}

/// `2^-e * 10^k` cleared of negative exponents: the factor on the side of
/// a plain number when it is compared with `c * 2^e * 10^k`.
pub open spec fn plain_factor(e: int, k: int) -> int {
    (pow2_of(pos(-e)) * pow10(pos(-k))) as int
}

/// The factor on the side of `c` when `c * 2^e * 10^k` is compared with a
/// plain number.
pub open spec fn scaled_factor(e: int, k: int) -> int {
    (pow2_of(pos(e)) * pow10(pos(k))) as int
}

/// Comparisons of a plain number `a` with `c * 2^e * 10^k` as products with
/// the two positive factors.
proof fn lemma_compare(a: int, c: int, e: int, k: int)
    ensures
        scaled_lt(a, 0, 0, c, e, k) == (a * plain_factor(e, k) < c * scaled_factor(e, k)),
        scaled_lt(c, e, k, a, 0, 0) == (c * scaled_factor(e, k) < a * plain_factor(e, k)),
        plain_factor(e, k) > 0,
        scaled_factor(e, k) > 0,
{
    let q2 = pow2_of(pos(-e)) as int;
    let g2 = pow2_of(pos(e)) as int;
    let q10 = pow10(pos(-k)) as int;
    let g10 = pow10(pos(k)) as int;
    lemma_scaled(a, 0, 0, c, e, k, q2, q10, g2, g10);
    lemma_scaled(c, e, k, a, 0, 0, g2, g10, q2, q10);
    lemma_pow2_of_is_pow2(pos(e));
    lemma_pow2_of_is_pow2(pos(-e));
    lemma_pow2_pos(pos(e));
    lemma_pow2_pos(pos(-e));
    lemma_pow10_ge(pos(k), 0);
    lemma_pow10_ge(pos(-k), 0);
    assert(a * q2 * q10 == a * (q2 * q10) && c * g2 * g10 == c * (g2 * g10)) by (nonlinear_arith);
    assert(q2 * q10 > 0 && g2 * g10 > 0) by (nonlinear_arith)
        requires
            q2 > 0,
            q10 > 0,
            g2 > 0,
            g10 > 0,
    ;
}

/// One unit of the last decimal digit, `10^d`, is at most the gap
/// `2^bin_exp` between neighbouring significands: `plain_factor <=
/// scaled_factor`.
proof fn lemma_unit_le_gap(bin_exp: int, regular: bool)
    requires
        -1074 <= bin_exp <= 971,
    ensures
        plain_factor(bin_exp, -decimal_exponent(bin_exp, regular)) <= scaled_factor(
            bin_exp,
            -decimal_exponent(bin_exp, regular),
        ),
{
    let d = decimal_exponent(bin_exp, regular);
    let k = -d;
    let q = plain_factor(bin_exp, k);
    let g = scaled_factor(bin_exp, k);
    lemma_decimal_exponent_laws(bin_exp);
    lemma_compare(1, 1, bin_exp, k);
    assert(q <= g) by {
        let q2 = pow2_of(pos(-bin_exp)) as int;
        let g2 = pow2_of(pos(bin_exp)) as int;
        let q10 = pow10(pos(-k)) as int;
        let g10 = pow10(pos(k)) as int;
        if regular {
            lemma_scaled(1, 0, d, 1, bin_exp, 0, q2, q10, g2, g10);
            assert(1 * q2 * q10 == q && 1 * g2 * g10 == g) by (nonlinear_arith)
                requires q == q2 * q10, g == g2 * g10;
        } else {
            lemma_scaled(4, 0, d, 3, bin_exp, 0, q2, q10, g2, g10);
            assert(4 * q2 * q10 == 4 * q && 3 * g2 * g10 == 3 * g) by (nonlinear_arith)
                requires q == q2 * q10, g == g2 * g10;
        }
    }
}

/// The decimal that the interval path picks lies in the rounding interval
/// of `bin_sig * 2^bin_exp`, widened by a quarter unit of its last digit
/// below and by one unit above: with `d` the decimal exponent and the
/// interval's ends `lo / 4 * 2^bin_exp` and `hi / 4 * 2^bin_exp`,
/// `lo * 2^bin_exp < (4 * sig + 1) * 10^d` and
/// `(4 * sig - 4) * 10^d < hi * 2^bin_exp`.
pub proof fn lemma_interval_choice_near(bin_sig: int, bin_exp: int)
    requires
        is_binary64_finite(bin_sig, bin_exp),
    ensures
        ({
            let regular = is_regular(bin_sig);
            let d = decimal_exponent(bin_exp, regular);
            let sig = interval_significand(bin_sig, bin_exp, regular);
            let lo = 4 * bin_sig - if regular { 2int } else { 1 };
            let hi = 4 * bin_sig + 2;
            scaled_lt(lo, bin_exp, -d, 4 * sig + 1, 0, 0) && scaled_lt(4 * sig - 4, 0, 0, hi, bin_exp, -d)
        }),
{
    let m = bin_sig;
    let regular = is_regular(m);
    let d = decimal_exponent(bin_exp, regular);
    let k = -d;
    let lo = 4 * m - if regular { 2int } else { 1 };
    let hi = 4 * m + 2;
    let q = plain_factor(bin_exp, k);
    let g = scaled_factor(bin_exp, k);
    let r_lo = scaled_to_odd(bin_exp, regular, lo);
    let r_hi = scaled_to_odd(bin_exp, regular, hi);
    let r_mid = scaled_to_odd(bin_exp, regular, 4 * m);
    lemma_interval_estimate(bin_exp, regular, lo);
    lemma_interval_estimate(bin_exp, regular, hi);
    lemma_interval_estimate(bin_exp, regular, 4 * m);
    lemma_compare(r_lo - 2, lo, bin_exp, k);
    lemma_compare(r_lo + 1, lo, bin_exp, k);
    lemma_compare(r_hi - 2, hi, bin_exp, k);
    lemma_compare(r_hi + 1, hi, bin_exp, k);
    lemma_compare(r_mid - 2, 4 * m, bin_exp, k);
    lemma_compare(r_mid + 1, 4 * m, bin_exp, k);
    // One unit of the last digit is at most a gap between neighbours.
    lemma_decimal_exponent_laws(bin_exp);
    lemma_compare(1, 1, bin_exp, k);
    lemma_unit_le_gap(bin_exp, regular);
    let sig = interval_significand(m, bin_exp, regular);
    let lower = interval_lower(m, bin_exp, regular);
    let upper = interval_upper(m, bin_exp, regular);
    assert(lower >= r_lo && upper <= r_hi);
    let shorter = 10 * ((upper / 4) / 10);
    assert(4 * shorter <= upper);
    let under = r_mid / 4;
    assert(4 * under <= r_mid < 4 * under + 4);
    assert(lo * g < (r_lo + 1) * q && (r_hi - 2) * q < hi * g);
    assert((r_mid - 2) * q < 4 * m * g && 4 * m * g < (r_mid + 1) * q);
    if shorter * 4 >= lower {
        assert(sig == shorter);
        assert(lo * g < (4 * sig + 1) * q) by (nonlinear_arith)
            requires lo * g < (r_lo + 1) * q, r_lo <= 4 * sig, q > 0;
        assert((4 * sig - 4) * q < hi * g) by (nonlinear_arith)
            requires (r_hi - 2) * q < hi * g, 4 * sig <= r_hi, q > 0;
    } else {
        let under_closer = r_mid % 4 < 2 || (r_mid % 4 == 2 && under % 2 == 0);
        if under_closer && under * 4 >= lower {
            assert(sig == under);
            assert(lo * g < (4 * sig + 1) * q) by (nonlinear_arith)
                requires lo * g < (r_lo + 1) * q, r_lo <= 4 * sig, q > 0;
            assert((4 * sig - 4) * q < hi * g) by (nonlinear_arith)
                requires (r_mid - 2) * q < 4 * m * g, 4 * sig <= r_mid, q > 0, g > 0, hi == 4 * m + 2;
        } else {
            assert(sig == under + 1);
            assert(lo * g < (4 * sig + 1) * q) by (nonlinear_arith)
                requires 4 * m * g < (r_mid + 1) * q, r_mid < 4 * sig, q > 0, g > 0, lo < 4 * m;
            assert((4 * sig - 4) * q <= r_mid * q) by (nonlinear_arith)
                requires 4 * sig <= r_mid + 4, q > 0;
            assert((r_mid - 2) * q == r_mid * q - 2 * q) by (nonlinear_arith);
            assert(hi * g == 4 * m * g + 2 * g) by (nonlinear_arith)
                requires hi == 4 * m + 2;
        }
    }
    lemma_compare(4 * sig + 1, lo, bin_exp, k);
    lemma_compare(4 * sig - 4, hi, bin_exp, k);
}

/// `10^-d * 2^(127 - b)`, the power of ten that the table entry for the
/// decimal exponent `d` of `bin_exp` stands for, is `power_num / power_den`.
pub open spec fn power_num(bin_exp: int, regular: bool) -> int {
    let d = decimal_exponent(bin_exp, regular);
    (pow2_of(pos(127 - pow10_bin_exp(d))) * pow10(pos(-d))) as int
}

/// The denominator of that power.
pub open spec fn power_den(bin_exp: int, regular: bool) -> int {
    let d = decimal_exponent(bin_exp, regular);
    (pow2_of(pos(-(127 - pow10_bin_exp(d)))) * pow10(pos(d))) as int
}

/// The table entry overestimates the power by at most one, and the power
/// times `2^s` is `2^bin_exp * 10^-d` scaled by `2^128`.
proof fn lemma_power_fraction(bin_exp: int, regular: bool)
    requires
        -1074 <= bin_exp <= 971,
    ensures
        ({
            let d = decimal_exponent(bin_exp, regular);
            let s = scale_shift(bin_exp, regular);
            let p = pow10_significand(d);
            let en = power_num(bin_exp, regular);
            let ed = power_den(bin_exp, regular);
            &&& exponent_ok(bin_exp, regular)
            &&& en < p * ed
            &&& (p - 1) * ed <= en
            &&& ed > 0
            &&& 1 <= s <= 4
            &&& en * pow2(s as nat) * plain_factor(bin_exp, -d) == ed * (limb() * limb())
                * scaled_factor(bin_exp, -d)
        }),
{
    lemma_exponent_ok(bin_exp, regular);
    let d = decimal_exponent(bin_exp, regular);
    let k = -d;
    let s = scale_shift(bin_exp, regular);
    let b = pow10_bin_exp(d);
    let e = 127 - b;
    let p = pow10_significand(d);
    lemma_table_laws(d);
    let en = power_num(bin_exp, regular);
    let ed = power_den(bin_exp, regular);
    let a2 = pow2_of(pos(e)) as int;
    let a10 = pow10(pos(k)) as int;
    let b2 = pow2_of(pos(-e)) as int;
    let b10 = pow10(pos(-k)) as int;
    lemma_scaled(1, e, k, p, 0, 0, a2, a10, b2, b10);
    lemma_scaled(p - 1, 0, 0, 1, e, k, b2, b10, a2, a10);
    assert(en < p * ed && (p - 1) * ed <= en) by (nonlinear_arith)
        requires
            1 * a2 * a10 < p * b2 * b10,
            (p - 1) * b2 * b10 <= 1 * a2 * a10,
            en == a2 * a10,
            ed == b2 * b10,
    ;
    lemma2_to64();
    lemma_pow2_of_is_pow2(pos(e));
    lemma_pow2_of_is_pow2(pos(-e));
    lemma_pow2_of_is_pow2(pos(bin_exp));
    lemma_pow2_of_is_pow2(pos(-bin_exp));
    lemma_pow2_adds(pos(e), s as nat);
    lemma_pow2_adds((pos(e) + s) as nat, pos(-bin_exp));
    lemma_pow2_adds(pos(-e), 128);
    lemma_pow2_adds((pos(-e) + 128) as nat, pos(bin_exp));
    lemma_pow2_adds(64, 64);
    let big = limb() * limb();
    assert(pow2(128) == big);
    let q2 = pow2_of(pos(-bin_exp)) as int;
    let g2 = pow2_of(pos(bin_exp)) as int;
    let p2 = pow2(s as nat) as int;
    assert(a2 * p2 * q2 == b2 * big * g2);
    lemma_pow2_pos(pos(-e));
    lemma_pow10_ge(pos(-k), 0);
    assert(ed > 0) by (nonlinear_arith)
        requires
            b2 > 0,
            b10 > 0,
            ed == b2 * b10,
    ;
    let t = a2 * p2 * q2;
    let u = b2 * big * g2;
    assert(en * p2 * (q2 * b10) == t * (a10 * b10)) by (nonlinear_arith)
        requires
            en == a2 * a10,
            t == a2 * p2 * q2,
    ;
    assert(t * (a10 * b10) == u * (a10 * b10));
    assert(u * (a10 * b10) == ed * big * (g2 * a10)) by (nonlinear_arith)
        requires
            ed == b2 * b10,
            u == b2 * big * g2,
    ;
}

/// The yy estimate `t` of `bin_sig * 2^bin_exp * 10^-d`, with 64 fractional
/// bits, is low by less than two units of those bits:
/// `t <= bin_sig * 2^bin_exp * 10^-d * 2^64 < t + 2`; and its half unit in
/// the last place, with 60 fractional bits, is below half the gap between
/// neighbouring values (`2^bin_exp * 10^-d * 2^59`) plus `1/32`.
pub proof fn lemma_yy_estimate(bin_sig: int, bin_exp: int)
    requires
        -1074 <= bin_exp <= 971,
        0 < bin_sig < 0x20_0000_0000_0000,
    ensures
        ({
            let d = decimal_exponent(bin_exp, true);
            let q = plain_factor(bin_exp, -d);
            let g = scaled_factor(bin_exp, -d);
            let t = yy_product(bin_sig, bin_exp);
            let h = yy_half_ulp(bin_sig, bin_exp);
            &&& t >= 0
            &&& t * q <= bin_sig * limb() * g
            &&& bin_sig * limb() * g < (t + 2) * q
            &&& 32 * h * q < g * limb() + q
        }),
{
    let m = bin_sig;
    lemma_power_fraction(bin_exp, true);
    let d = decimal_exponent(bin_exp, true);
    let s = scale_shift(bin_exp, true);
    let p = pow10_significand(d);
    let en = power_num(bin_exp, true);
    let ed = power_den(bin_exp, true);
    let q = plain_factor(bin_exp, -d);
    let g = scaled_factor(bin_exp, -d);
    lemma_compare(0, 0, bin_exp, -d);
    let l = limb();
    let big = l * l;
    lemma2_to64();
    let p2 = pow2(s as nat) as int;
    let x = m * p2;
    assert(0 < x < l) by (nonlinear_arith)
        requires
            x == m * p2,
            0 < m < 0x20_0000_0000_0000,
            0 < p2 <= 16,
            l == 0x1_0000_0000_0000_0000int,
    ;
    assert(en * p2 * q == ed * big * g);
    let hi = pow10_hi(d);
    let lo = pow10_lo(d);
    assert(p == hi * l + lo);
    assert(p >= 1);
    let a = (p - 1) * x;
    assert(a >= 0) by (nonlinear_arith)
        requires
            p >= 1,
            x > 0,
            a == (p - 1) * x,
    ;
    let t = yy_product(m, bin_exp);
    assert(t == a / l);
    vstd::arithmetic::div_mod::lemma_fundamental_div_mod(a, l);
    assert(t * l <= a && a < t * l + l);
    // From above.
    assert(t * l * ed * q <= en * x * q) by (nonlinear_arith)
        requires
            t * l <= a,
            a == (p - 1) * x,
            (p - 1) * ed <= en,
            ed > 0,
            x > 0,
            q > 0,
    ;
    assert(en * x * q == m * ed * big * g) by (nonlinear_arith)
        requires
            en * p2 * q == ed * big * g,
            x == m * p2,
    ;
    assert(t * l * ed * q == (t * q) * (ed * l)) by (nonlinear_arith);
    assert(m * ed * big * g == (m * l * g) * (ed * l)) by (nonlinear_arith)
        requires
            big == l * l,
    ;
    assert(ed * l > 0) by (nonlinear_arith)
        requires
            ed > 0,
            l > 0,
    ;
    lemma_cancel_le(t * q, m * l * g, ed * l);
    // From below.
    assert((en - ed) * x * q < (t + 1) * l * ed * q) by (nonlinear_arith)
        requires
            a < t * l + l,
            a == (p - 1) * x,
            en < p * ed,
            ed > 0,
            x > 0,
            q > 0,
    ;
    assert(ed * x * q < ed * l * q) by (nonlinear_arith)
        requires
            x < l,
            ed > 0,
            q > 0,
    ;
    assert((en - ed) * x * q == en * x * q - ed * x * q) by (nonlinear_arith);
    assert((t + 1) * l * ed * q + ed * l * q == (t + 2) * l * ed * q) by (nonlinear_arith);
    assert(m * ed * big * g < (t + 2) * l * ed * q);
    assert(m * ed * big * g == (m * l * g) * (ed * l)) by (nonlinear_arith)
        requires
            big == l * l,
    ;
    assert((t + 2) * l * ed * q == ((t + 2) * q) * (ed * l)) by (nonlinear_arith);
    lemma_cancel(m * l * g, (t + 2) * q, ed * l);
    // The half unit.
    let h = yy_half_ulp(m, bin_exp);
    let f = pow2((5 - s) as nat) as int;
    lemma_pow2_adds((5 - s) as nat, s as nat);
    assert(f * p2 == 32);
    lemma_pow2_pos((5 - s) as nat);
    vstd::arithmetic::div_mod::lemma_fundamental_div_mod(hi, f);
    assert(h * f <= hi);
    assert(32 * h * l <= p * p2) by (nonlinear_arith)
        requires
            h * f <= hi,
            f * p2 == 32,
            p == hi * l + lo,
            lo >= 0,
            l > 0,
            p2 > 0,
            h >= 0,
    ;
    assert((32 * h * q) * (ed * l) < (g * l + q) * (ed * l)) by (nonlinear_arith)
        requires
            32 * h * l <= p * p2,
            (p - 1) * ed <= en,
            ed > 0,
            q > 0,
            en * p2 * q == ed * big * g,
            big == l * l,
            0 < p2 < l,
    ;
    lemma_cancel(32 * h * q, g * l + q, ed * l);
}

/// A weak order between multiples of a positive number holds of the
/// factors.
proof fn lemma_cancel_le(u: int, v: int, w: int)
    requires
        w > 0,
        u * w <= v * w,
    ensures
        u <= v,
{
    assert(u <= v) by (nonlinear_arith)
        requires
            w > 0,
            u * w <= v * w,
    ;
}

/// The decimal that the yy shortcut picks, when it decides, lies in the
/// rounding interval widened by a quarter unit of its last digit below and
/// by one unit above, as for the interval path.
pub proof fn lemma_yy_choice_near(bin_sig: int, bin_exp: int)
    requires
        is_binary64_finite(bin_sig, bin_exp),
        is_regular(bin_sig),
    ensures
        ({
            let d = decimal_exponent(bin_exp, true);
            let sig = yy_significand(bin_sig, bin_exp);
            scaled_lt(4 * bin_sig - 2, bin_exp, -d, 4 * sig + 1, 0, 0) && scaled_lt(
                4 * sig - 4,
                0,
                0,
                4 * bin_sig + 2,
                bin_exp,
                -d,
            )
        }),
{
    let m = bin_sig;
    let d = decimal_exponent(bin_exp, true);
    let q = plain_factor(bin_exp, -d);
    let g = scaled_factor(bin_exp, -d);
    let l = limb();
    lemma2_to64();
    lemma_yy_estimate(m, bin_exp);
    lemma_unit_le_gap(bin_exp, true);
    lemma_compare(0, 0, bin_exp, -d);
    let t = yy_product(m, bin_exp);
    let h = yy_half_ulp(m, bin_exp);
    let i = yy_integral(m, bin_exp);
    let f = yy_fractional(m, bin_exp);
    vstd::arithmetic::div_mod::lemma_fundamental_div_mod(t, l);
    assert(t == i * l + f && 0 <= f < l);
    let digit = i % 10;
    assert(0 <= digit <= 9);
    let rem10 = yy_rem10(m, bin_exp);
    assert(rem10 == digit * 0x1000_0000_0000_0000 + f / 16);
    assert(16 * rem10 <= digit * l + f && digit * l + f < 16 * rem10 + 16);
    let sig = yy_significand(m, bin_exp);
    let round = (rem10 + h) / 0x1000_0000_0000_0000 >= 10;
    let lo = 4 * m - 2;
    let hi = 4 * m + 2;
    // Products with the factors, named.
    let mg = m * l * g;
    assert(i * l * q <= t * q) by (nonlinear_arith)
        requires
            t == i * l + f,
            f >= 0,
            q > 0,
    ;
    assert(t * q <= mg && mg < (t + 2) * q);
    assert(32 * h * q < g * l + q);
    if round || h >= rem10 {
        if round {
            assert(sig == i - digit + 10);
            assert(rem10 + h >= 10 * 0x1000_0000_0000_0000);
            assert(sig * l <= t + 16 * h);
            // Below: sig >= i + 1.
            assert(4 * mg < (4 * sig + 1) * q * l) by (nonlinear_arith)
                requires
                    mg < (t + 2) * q,
                    t == i * l + f,
                    f < l,
                    sig >= i + 1,
                    q > 0,
                    l >= 8,
            ;
            // Above.
            assert((4 * sig - 4) * q * l < hi * g * l) by (nonlinear_arith)
                requires
                    sig * l <= t + 16 * h,
                    t * q <= mg,
                    mg == m * l * g,
                    32 * h * q < g * l + q,
                    hi == 4 * m + 2,
                    q > 0,
                    l >= 8,
            ;
        } else {
            assert(sig == i - digit);
            assert(digit * l + f < 16 * h + 16);
            let rest = digit * l + f;
            assert(t == sig * l + rest);
            assert(t * q == sig * l * q + rest * q) by (nonlinear_arith)
                requires
                    t == sig * l + rest,
            ;
            assert(rest * q < 16 * h * q + 16 * q) by (nonlinear_arith)
                requires
                    rest < 16 * h + 16,
                    q > 0,
            ;
            assert(16 * h * q == 16 * (h * q) && 32 * h * q == 32 * (h * q)) by (nonlinear_arith);
            assert((t + 2) * q == t * q + 2 * q) by (nonlinear_arith);
            assert(4 * sig * l * q == 4 * (sig * l * q)) by (nonlinear_arith);
            assert(4 * mg < 4 * sig * l * q + 2 * g * l + 74 * q);
            assert((4 * sig + 1) * q * l == 4 * sig * l * q + q * l) by (nonlinear_arith);
            assert(74 * q < q * l) by (nonlinear_arith)
                requires
                    q > 0,
                    l >= 128,
            ;
            assert(4 * mg < (4 * sig + 1) * q * l + 2 * g * l);
            assert((4 * sig - 4) * q * l < hi * g * l) by (nonlinear_arith)
                requires
                    sig <= i,
                    i * l * q <= t * q,
                    t * q <= mg,
                    mg == m * l * g,
                    hi == 4 * m + 2,
                    q > 0,
                    g > 0,
                    l > 0,
            ;
        }
    } else {
        if f >= 0x8000_0000_0000_0000 {
            assert(sig == i + 1);
            assert(4 * mg < (4 * sig + 1) * q * l) by (nonlinear_arith)
                requires
                    mg < (t + 2) * q,
                    t == i * l + f,
                    f < l,
                    sig == i + 1,
                    q > 0,
                    l >= 8,
            ;
        } else {
            assert(sig == i);
            assert(4 * mg < (4 * sig + 1) * q * l + 2 * g * l) by (nonlinear_arith)
                requires
                    mg < (t + 2) * q,
                    t == i * l + f,
                    2 * f < l,
                    sig == i,
                    q > 0,
                    q <= g,
                    l >= 16,
            ;
        }
        assert((4 * sig - 4) * q * l < hi * g * l) by (nonlinear_arith)
            requires
                sig <= i + 1,
                i * l * q <= t * q,
                t * q <= mg,
                mg == m * l * g,
                hi == 4 * m + 2,
                q > 0,
                g > 0,
                l > 0,
        ;
    }
    // Both bounds, cleared of l.
    assert(lo * g * l < (4 * sig + 1) * q * l) by (nonlinear_arith)
        requires
            4 * mg < (4 * sig + 1) * q * l + 2 * g * l || 4 * mg < (4 * sig + 1) * q * l,
            mg == m * l * g,
            lo == 4 * m - 2,
            g > 0,
            l > 0,
    ;
    assert(l > 0);
    lemma_cancel(lo * g, (4 * sig + 1) * q, l);
    lemma_cancel((4 * sig - 4) * q, hi * g, l);
    lemma_compare(4 * sig + 1, lo, bin_exp, -d);
    lemma_compare(4 * sig - 4, hi, bin_exp, -d);
}

/// The decimal `sig * 10^e` that the conversion gives for a finite nonzero
/// binary64 value `bin_sig * 2^bin_exp` lies in the value's rounding
/// interval, widened by a quarter unit of the decimal's last digit below
/// and by one unit above. With the interval's ends `lo / 4 * 2^bin_exp` and
/// `hi / 4 * 2^bin_exp`: `lo * 2^bin_exp < (4 * sig + 1) * 10^e` and
/// `(4 * sig - 4) * 10^e < hi * 2^bin_exp`.
pub proof fn lemma_decimal_near(bin_sig: int, bin_exp: int)
    requires
        is_binary64_finite(bin_sig, bin_exp),
    ensures
        ({
            let sig = decimal_significand(bin_sig, bin_exp);
            let e = decimal_exponent_of(bin_sig, bin_exp);
            let lo = 4 * bin_sig - if is_regular(bin_sig) { 2int } else { 1 };
            let hi = 4 * bin_sig + 2;
            scaled_lt(lo, bin_exp, -e, 4 * sig + 1, 0, 0) && scaled_lt(4 * sig - 4, 0, 0, hi, bin_exp, -e)
        }),
{
    let m = bin_sig;
    let regular = is_regular(m);
    let sig = decimal_significand(m, bin_exp);
    let e = decimal_exponent_of(m, bin_exp);
    let lo = 4 * m - if regular { 2int } else { 1 };
    let hi = 4 * m + 2;
    if is_small_integer(m, bin_exp) {
        lemma_small_integer_exact(m, bin_exp);
        assert(e == 0);
        lemma_compare(4 * sig + 1, lo, bin_exp, 0);
        lemma_compare(4 * sig - 4, hi, bin_exp, 0);
        let w = pow2((-bin_exp) as nat) as int;
        lemma_pow2_of_is_pow2((-bin_exp) as nat);
        lemma_pow2_pos((-bin_exp) as nat);
        assert(pos(-bin_exp) == -bin_exp && pos(bin_exp) == 0 && pos(0) == 0);
        lemma_pow_bases();
        assert(pow2_of(pos(-bin_exp)) == w);
        let a = pow2_of(pos(-bin_exp)) as int;
        let b = pow10(pos(-0int)) as int;
        assert(b == 1);
        assert(a * b == w) by (nonlinear_arith)
            requires
                a == w,
                b == 1,
        ;
        assert(plain_factor(bin_exp, 0) == w);
        assert(scaled_factor(bin_exp, 0) == 1);
        assert(lo * 1 < (4 * sig + 1) * w && (4 * sig - 4) * w < hi * 1) by (nonlinear_arith)
            requires
                sig * w == m,
                w > 0,
                lo < 4 * m,
                hi == 4 * m + 2,
        ;
    } else if regular && yy_decides(m, bin_exp) {
        lemma_yy_choice_near(m, bin_exp);
    } else {
        lemma_interval_choice_near(m, bin_exp);
    }
}

} // verus!
