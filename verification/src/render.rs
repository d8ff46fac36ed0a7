//! Rendering a decimal `significand * 10^exponent` in scientific notation.

use vstd::prelude::*;

use crate::digits::{
    byte_of, bytes_of, count_trailing_nonzeros, decimal_digits, digit_char, digits2, digits8_u64,
    divmod100, fixed_digits, lemma_fixed_digits_split, pow10, significant_len, strip_zeros,
    DivmodResult,
};

verus! {

/// Size of the buffer that holds one rendered number.
pub const BUFFER_SIZE: usize = 25;

/// `w` characters `0`.
pub open spec fn zeros(w: nat) -> Seq<u8> {
    Seq::new(w, |i: int| 0x30u8)
}

/// The exponent field: at least two digits, three when needed.
pub open spec fn exponent_digits(n: nat) -> Seq<u8> {
    if n >= 100 {
        fixed_digits(n, 3)
    } else {
        fixed_digits(n, 2)
    }
}

/// `d * 10^e` (with `d > 0`) in scientific notation: the first significant
/// digit, a point, the other significant digits without trailing zeros,
/// `e`, the sign of the exponent and its digits (at least two).
pub open spec fn scientific(d: nat, e: int) -> Seq<u8> {
    let digits = decimal_digits(d);
    let t = strip_zeros(digits);
    let x = e + digits.len() - 1;
    seq![t[0], 0x2eu8] + t.drop_first() + seq![0x65u8, if x < 0 { 0x2du8 } else { 0x2bu8 }]
        + exponent_digits(if x < 0 { -x } else { x } as nat)
}

/// `fixed_digits(n, w)` has `w` digits.
pub proof fn lemma_fixed_digits_len(n: nat, w: nat)
    ensures
        fixed_digits(n, w).len() == w,
    decreases w,
{
    if w > 0 {
        lemma_fixed_digits_len(n / 10, (w - 1) as nat);
    }
}

/// Zero in `w` digits is `w` zeros.
pub proof fn lemma_fixed_digits_zero(w: nat)
    ensures
        fixed_digits(0, w) == zeros(w),
    decreases w,
{
    if w > 0 {
        lemma_fixed_digits_zero((w - 1) as nat);
        assert(fixed_digits(0, w) =~= zeros(w));
    }
}

/// Stripping ignores zeros appended at the end.
pub proof fn lemma_strip_append_zeros(s: Seq<u8>, w: nat)
    ensures
        strip_zeros(s + zeros(w)) == strip_zeros(s),
    decreases w,
{
    if w > 0 {
        assert((s + zeros(w)).drop_last() =~= s + zeros((w - 1) as nat));
        lemma_strip_append_zeros(s, (w - 1) as nat);
    } else {
        assert(s + zeros(0) =~= s);
    }
}

/// Stripping never lengthens.
pub proof fn lemma_strip_len(s: Seq<u8>)
    ensures
        strip_zeros(s).len() <= s.len(),
        strip_zeros(s) == s.take(strip_zeros(s).len() as int),
        strip_zeros(s).len() > 0 ==> strip_zeros(s).last() != 0x30,
    decreases s.len(),
{
    if s.len() > 0 && s.last() == 0x30 {
        lemma_strip_len(s.drop_last());
        assert(s.drop_last().take(strip_zeros(s).len() as int) =~= s.take(strip_zeros(s).len() as int));
    } else {
        assert(s.take(s.len() as int) =~= s);
    }
}

/// Stripping trailing zeros from `p + x` strips within `x` unless `x` is all
/// zeros.
pub proof fn lemma_strip_concat(p: Seq<u8>, x: Seq<u8>)
    ensures
        strip_zeros(x).len() > 0 ==> strip_zeros(p + x) == p + strip_zeros(x),
        strip_zeros(x).len() == 0 ==> strip_zeros(p + x) == strip_zeros(p),
    decreases x.len(),
{
    if x.len() == 0 {
        assert(p + x =~= p);
    } else if x.last() == 0x30 {
        assert((p + x).drop_last() =~= p + x.drop_last());
        lemma_strip_concat(p, x.drop_last());
    } else {
        assert((p + x).last() == x.last());
    }
}

/// A positive number below `10^w` keeps a digit after its trailing zeros
/// are stripped.
pub proof fn lemma_strip_fixed_positive(n: nat, w: nat)
    requires
        0 < n < pow10(w),
    ensures
        strip_zeros(fixed_digits(n, w)).len() > 0,
    decreases w,
{
    if w == 0 {
    } else if n % 10 != 0 {
        assert(fixed_digits(n, w).last() == digit_char((n % 10) as int));
    } else {
        assert(n / 10 > 0);
        assert(n / 10 < pow10((w - 1) as nat));
        lemma_strip_fixed_positive(n / 10, (w - 1) as nat);
        assert(fixed_digits(n, w).drop_last() == fixed_digits(n / 10, (w - 1) as nat));
        assert(fixed_digits(n, w).last() == 0x30 + n % 10);
    }
}

/// `significant_len` measures the bytes that stripping trailing zeros keeps.
pub proof fn lemma_significant_len_strip(x: u64, n: nat)
    requires
        n <= 8,
    ensures
        strip_zeros(bytes_of(x).take(n as int)) == bytes_of(x).take(significant_len(x, n) as int),
        significant_len(x, n) <= n,
    decreases n,
{
    if n > 0 {
        let s = bytes_of(x).take(n as int);
        assert(s.last() == byte_of(x, n - 1));
        if byte_of(x, n - 1) == 0x30 {
            assert(s.drop_last() =~= bytes_of(x).take(n - 1));
            lemma_significant_len_strip(x, (n - 1) as nat);
        }
    } else {
        assert(bytes_of(x).take(0) =~= Seq::<u8>::empty());
    }
}

/// The digits of a number with exactly `w` digits.
pub proof fn lemma_decimal_digits_fixed(n: nat, w: nat)
    requires
        w >= 1,
        pow10((w - 1) as nat) <= n < pow10(w),
    ensures
        decimal_digits(n) == fixed_digits(n, w),
    decreases w,
{
    if w == 1 {
        reveal_with_fuel(pow10, 2);
        reveal_with_fuel(fixed_digits, 2);
        assert(fixed_digits(n, 1) =~= seq![digit_char(n as int)]);
    } else {
        assert(n >= 10) by {
            lemma_pow10_ge((w - 1) as nat, 1);
            reveal_with_fuel(pow10, 2);
        }
        lemma_decimal_digits_fixed(n / 10, (w - 1) as nat);
    }
}

/// Powers of ten grow with the exponent.
pub proof fn lemma_pow10_ge(a: nat, b: nat)
    requires
        b <= a,
    ensures
        pow10(b) <= pow10(a),
        pow10(a) >= 1,
    decreases a,
{
    if a > 0 {
        if b < a {
            lemma_pow10_ge((a - 1) as nat, b);
        } else {
            lemma_pow10_ge((a - 1) as nat, (a - 1) as nat);
        }
    }
}

/// Stores the eight bytes of `x`, least significant first, at `pos`.
fn store_u64(buf: &mut [u8; BUFFER_SIZE], pos: usize, x: u64)
    requires
        pos + 8 <= BUFFER_SIZE,
    ensures
        final(buf)@ == old(buf)@.take(pos as int) + bytes_of(x) + old(buf)@.skip(pos + 8),
{
    let mut i: usize = 0;
    while i < 8
        invariant
            i <= 8,
            pos + 8 <= BUFFER_SIZE,
            buf@.len() == BUFFER_SIZE,
            buf@ == old(buf)@.take(pos as int) + bytes_of(x).take(i as int) + old(buf)@.skip(pos + i),
        decreases 8 - i,
    {
        let shift: u64 = 8 * i as u64;
        let b = (x >> shift) as u8;
        proof {
            assert((x >> shift) as u8 == ((x >> shift) & 0xff) as u8) by (bit_vector);
            assert(b == byte_of(x, i as int));
        }
        buf[pos + i] = b;
        i = i + 1;
        assert(buf@ =~= old(buf)@.take(pos as int) + bytes_of(x).take(i as int) + old(buf)@.skip(pos + i));
    }
    assert(bytes_of(x).take(8) =~= bytes_of(x));
}

/// The digits `write_significand` keeps of `value`: seventeen of them, or
/// sixteen when the first would be zero, without trailing zeros.
pub open spec fn significand_digits(value: nat) -> Seq<u8> {
    strip_zeros(fixed_digits(value, if value >= pow10(16) { 17 } else { 16 }))
}

/// A few powers of ten, up to `10^17`.
pub proof fn lemma_pow10_values()
    ensures
        pow10(2) == 100,
        pow10(8) == 100_000_000,
        pow10(15) == 1_000_000_000_000_000,
        pow10(16) == 10_000_000_000_000_000,
        pow10(17) == 100_000_000_000_000_000,
{
    reveal_with_fuel(pow10, 18);
}

/// A significand of at most seventeen digits as its first digit (dropped
/// when zero) and two runs of eight.
proof fn lemma_significand_split(v: nat, a: nat, b8: nat, f8: nat)
    requires
        v == (a * 100_000_000 + b8) * 100_000_000 + f8,
        a < 10,
        b8 < 100_000_000,
        f8 < 100_000_000,
    ensures
        (a != 0) == (v >= pow10(16)),
        fixed_digits(v, if v >= pow10(16) { 17 } else { 16 }) == (if a != 0 {
            seq![digit_char(a as int)]
        } else {
            Seq::<u8>::empty()
        }) + fixed_digits(b8, 8) + fixed_digits(f8, 8),
{
    lemma_pow10_values();
    let c1 = fixed_digits(b8, 8);
    let c2 = fixed_digits(f8, 8);
    lemma_fixed_digits_split(a * 100_000_000 + b8, f8, 8, 8);
    lemma_fixed_digits_split(a, b8, 1, 8);
    lemma_fixed_digits_split(0, a, 8, 1);
    assert(fixed_digits(a, 1) =~= seq![digit_char(a as int)]) by {
        reveal_with_fuel(fixed_digits, 2);
    }
    lemma_fixed_digits_zero(8);
    if a != 0 {
        lemma_fixed_digits_split(a, b8, 9, 8);
        lemma_fixed_digits_split(a * 100_000_000 + b8, f8, 9, 8);
        assert(fixed_digits(a, 9) =~= zeros(8) + seq![digit_char(a as int)]);
        assert(v >= pow10(16)) by (nonlinear_arith)
            requires v == (a * 100_000_000 + b8) * 100_000_000 + f8, a >= 1, pow10(16) == 10_000_000_000_000_000;
        assert(fixed_digits(v, 17) =~= seq![digit_char(a as int)] + c1 + c2);
    } else {
        assert(v < pow10(16));
        assert(fixed_digits(v, 16) =~= Seq::<u8>::empty() + c1 + c2);
    }
}

/// What `count_trailing_nonzeros` measures of eight stored digits.
proof fn lemma_chunk_trim(digits: u64, n: nat, w: nat)
    requires
        bytes_of(digits) == fixed_digits(n, 8),
        w == significant_len(digits & 0x7fff_ffff_ffff_ffff, 8),
    ensures
        strip_zeros(fixed_digits(n, 8)) == fixed_digits(n, 8).take(w as int),
        w <= 8,
{
    lemma_fixed_digits_len(n, 8);
    assert(byte_of(digits, 7) == fixed_digits(n, 8)[7]);
    assert(fixed_digits(n, 8)[7] < 0x80) by {
        reveal_with_fuel(fixed_digits, 2);
    }
    assert(digits & 0x7fff_ffff_ffff_ffff == digits) by (bit_vector)
        requires (((digits >> 56u64) & 0xff) as u8) < 0x80u8;
    lemma_significant_len_strip(digits, 8);
    assert(bytes_of(digits).take(8) =~= bytes_of(digits));
}

/// Writes a significand of 16 or 17 decimal digits at `pos`, without its
/// trailing zeros, and returns where the digits end. Bytes past the end, up
/// to `pos + 17`, are scratch space; nothing from `pos + 17` on is touched.
pub fn write_significand(buf: &mut [u8; BUFFER_SIZE], pos: usize, value: u64) -> (end: usize)
    requires
        pos + 17 <= BUFFER_SIZE,
        value < pow10(17),
    ensures
        end == pos + significand_digits(value as nat).len(),
        final(buf)@.subrange(pos as int, end as int) == significand_digits(value as nat),
        final(buf)@.take(pos as int) == old(buf)@.take(pos as int),
        final(buf)@.skip(pos + 17) == old(buf)@.skip(pos + 17),
{
    proof {
        lemma_pow10_values();
    }
    // Each digit is denoted by a letter, so value is abbccddeeffgghhii,
    // where digit a can be zero.
    let abbccddee = (value / 100_000_000) as u32;
    let ffgghhii = (value % 100_000_000) as u32;
    let abbcc = abbccddee / 10_000;
    let ddee = abbccddee % 10_000;
    let abb = abbcc / 100;
    let cc = abbcc % 100;
    let DivmodResult { div: a, rem: bb } = divmod100(abb);
    let DivmodResult { div: dd, rem: ee } = divmod100(ddee);
    let ghost b8 = (abbccddee % 100_000_000) as nat;
    let ghost head = if a != 0 { seq![digit_char(a as int)] } else { Seq::<u8>::empty() };
    let ghost c1 = fixed_digits(b8, 8);
    let ghost c2 = fixed_digits(ffgghhii as nat, 8);
    proof {
        assert(abbccddee < 1_000_000_000);
        assert(bb * 1_000_000 + cc * 10_000 + dd * 100 + ee == b8);
        assert(abbccddee == a * 100_000_000 + b8);
        lemma_significand_split(value as nat, a as nat, b8, ffgghhii as nat);
        lemma_fixed_digits_len(b8, 8);
        lemma_fixed_digits_len(ffgghhii as nat, 8);
    }
    buf[pos] = 0x30 + a as u8;
    let start = pos + if a != 0 { 1 } else { 0 };
    let digits = digits8_u64(bb, cc, dd, ee);
    store_u64(buf, start, digits);
    proof {
        assert(buf@.subrange(pos as int, start as int) =~= head);
        assert(buf@.subrange(start as int, start + 8) =~= c1);
        assert(buf@.take(pos as int) =~= old(buf)@.take(pos as int));
        assert(buf@.skip(pos + 17) =~= old(buf)@.skip(pos + 17));
    }
    if ffgghhii == 0 {
        let n = count_trailing_nonzeros(digits);
        proof {
            lemma_chunk_trim(digits, b8, n as nat);
            lemma_fixed_digits_zero(8);
            lemma_strip_append_zeros(head + c1, 8);
            lemma_strip_concat(head, c1);
            if strip_zeros(c1).len() == 0 {
                if a != 0 {
                    assert(strip_zeros(head) == head);
                } else {
                    assert(strip_zeros(head) =~= head);
                }
            }
            assert(strip_zeros(head + c1) =~= head + strip_zeros(c1));
            assert(buf@.subrange(pos as int, (start + n) as int) =~= head + strip_zeros(c1));
        }
        return start + n;
    }
    let start2 = start + 8;
    let ffgg = ffgghhii / 10_000;
    let hhii = ffgghhii % 10_000;
    let DivmodResult { div: ff, rem: gg } = divmod100(ffgg);
    let DivmodResult { div: hh, rem: ii } = divmod100(hhii);
    let digits2 = digits8_u64(ff, gg, hh, ii);
    store_u64(buf, start2, digits2);
    let n = count_trailing_nonzeros(digits2);
    proof {
        assert(ff * 1_000_000 + gg * 10_000 + hh * 100 + ii == ffgghhii);
        lemma_chunk_trim(digits2, ffgghhii as nat, n as nat);
        lemma_strip_fixed_positive(ffgghhii as nat, 8);
        lemma_strip_concat(head + c1, c2);
        assert(buf@.subrange(pos as int, (start2 + n) as int) =~= head + c1 + strip_zeros(c2));
        assert(buf@.take(pos as int) =~= old(buf)@.take(pos as int));
        assert(buf@.skip(pos + 17) =~= old(buf)@.skip(pos + 17));
    }
    start2 + n
}

/// A number below `10^w` has at most `w` digits.
pub proof fn lemma_decimal_digits_len(n: nat, w: nat)
    requires
        w >= 1,
        n < pow10(w),
    ensures
        1 <= decimal_digits(n).len() <= w,
    decreases n,
{
    if n >= 10 {
        assert(w >= 2) by {
            if w == 1 {
                reveal_with_fuel(pow10, 2);
            }
        }
        assert(n / 10 < pow10((w - 1) as nat));
        lemma_decimal_digits_len(n / 10, (w - 1) as nat);
    }
}

/// The exponent sign and digits after an `e`.
fn write_exponent(buf: &mut [u8; BUFFER_SIZE], pos: usize, exp: i32) -> (end: usize)
    requires
        pos + 5 <= BUFFER_SIZE,
        -1000 < exp < 1000,
    ensures
        final(buf)@.subrange(pos as int, end as int) == seq![0x65u8, if exp < 0 { 0x2du8 } else { 0x2bu8 }]
            + exponent_digits(if exp < 0 { -exp } else { exp as int } as nat),
        final(buf)@.take(pos as int) == old(buf)@.take(pos as int),
        final(buf)@.skip(end as int) == old(buf)@.skip(end as int),
        pos + 4 <= end <= pos + 5,
{
    buf[pos] = 0x65;
    let mut e = exp;
    let mut sign: u8 = 0x2b;
    if e < 0 {
        sign = 0x2d;
        e = -e;
    }
    buf[pos + 1] = sign;
    let DivmodResult { div: a, rem: bb } = divmod100(e as u32);
    buf[pos + 2] = 0x30 + a as u8;
    let p = pos + 2 + if e >= 100 { 1 } else { 0 };
    let d = digits2(bb as usize);
    buf[p] = d[0];
    buf[p + 1] = d[1];
    proof {
        let n = e as nat;
        lemma_pow10_values();
        lemma_fixed_digits_len(bb as nat, 2);
        if e >= 100 {
            lemma_fixed_digits_split(a as nat, bb as nat, 1, 2);
            assert(fixed_digits(a as nat, 1) =~= seq![digit_char(a as int)]) by {
                reveal_with_fuel(fixed_digits, 2);
            }
            assert(exponent_digits(n) =~= seq![digit_char(a as int)] + d@);
        } else {
            assert(exponent_digits(n) == d@);
        }
        assert(buf@.subrange(pos as int, (p + 2) as int) =~= seq![0x65u8, sign] + exponent_digits(n));
        assert(buf@.take(pos as int) =~= old(buf)@.take(pos as int));
        assert(buf@.skip(p + 2) =~= old(buf)@.skip(p + 2));
    }
    p + 2
}

/// Writes the decimal `dec_sig * 10^dec_exp` in scientific notation from
/// `start` on, and returns where it ends: at most 23 bytes, and nothing
/// from `start + 23` on is touched.
pub fn write(buf: &mut [u8; BUFFER_SIZE], start: usize, dec_sig: u64, dec_exp: i32) -> (end: usize)
    requires
        start <= 1,
        0 < dec_sig < pow10(17),
        -1000 < dec_exp + decimal_digits(dec_sig as nat).len() - 1 < 1000,
    ensures
        final(buf)@.subrange(start as int, end as int) == scientific(dec_sig as nat, dec_exp as int),
        final(buf)@.take(start as int) == old(buf)@.take(start as int),
        final(buf)@.skip(start + 23) == old(buf)@.skip(start + 23),
        start < end <= start + 23,
{
    proof {
        lemma_pow10_values();
        lemma_decimal_digits_len(dec_sig as nat, 17);
    }
    let ghost digits = decimal_digits(dec_sig as nat);
    let ghost x = dec_exp + digits.len() - 1;
    // A significand with fewer than sixteen digits gets trailing zeros,
    // which do not show.
    let mut sig = dec_sig;
    let mut exp = dec_exp;
    while sig < 1_000_000_000_000_000
        invariant
            0 < sig < pow10(17),
            pow10(15) == 1_000_000_000_000_000,
            pow10(17) == 100_000_000_000_000_000,
            strip_zeros(decimal_digits(sig as nat)) == strip_zeros(digits),
            exp + decimal_digits(sig as nat).len() - 1 == x,
            -1017 < exp < 1000,
            -1000 < x < 1000,
            1 <= decimal_digits(sig as nat).len() <= 17,
        decreases pow10(17) - sig,
    {
        proof {
            assert((sig * 10) as nat / 10 == sig);
            assert(decimal_digits((sig * 10) as nat) == decimal_digits(sig as nat).push(0x30u8));
            assert(decimal_digits((sig * 10) as nat).drop_last() == decimal_digits(sig as nat));
            lemma_decimal_digits_len((sig * 10) as nat, 17);
        }
        sig = sig * 10;
        exp = exp - 1;
    }
    let big = sig >= 10_000_000_000_000_000;
    let ghost w: nat = if big { 17 } else { 16 };
    proof {
        lemma_decimal_digits_fixed(sig as nat, w);
        lemma_fixed_digits_len(sig as nat, w);
        lemma_strip_fixed_positive(sig as nat, w);
        lemma_strip_len(fixed_digits(sig as nat, w));
    }
    exp = exp + 15 + if big { 1 } else { 0 };
    let ghost before = buf@;
    let end = write_significand(buf, start + 1, sig);
    let ghost t = strip_zeros(digits);
    proof {
        assert(significand_digits(sig as nat) == t);
        assert(t.len() >= 1);
    }
    buf[start] = buf[start + 1];
    buf[start + 1] = 0x2e;
    let ghost mid = buf@;
    proof {
        assert(mid.subrange(start as int, end as int) =~= seq![t[0], 0x2eu8] + t.drop_first());
        assert(exp == x);
    }
    let fin = write_exponent(buf, end, exp);
    proof {
        assert(buf@.subrange(start as int, end as int) =~= mid.subrange(start as int, end as int)) by {
            assert(buf@.take(end as int) == mid.take(end as int));
            assert(buf@.subrange(start as int, end as int) =~= buf@.take(end as int).subrange(start as int, end as int));
            assert(mid.subrange(start as int, end as int) =~= mid.take(end as int).subrange(start as int, end as int));
        }
        assert(buf@.subrange(start as int, fin as int) =~= buf@.subrange(start as int, end as int)
            + buf@.subrange(end as int, fin as int));
        assert(buf@.take(start as int) =~= old(buf)@.take(start as int)) by {
            assert(buf@.take(end as int) == mid.take(end as int));
            assert(mid.take(start as int) =~= old(buf)@.take(start as int));
        }
        assert(buf@.skip(start + 23) =~= old(buf)@.skip(start + 23)) by {
            assert(buf@.skip(fin as int).skip(start + 23 - fin) =~= buf@.skip(start + 23));
            assert(mid.skip(fin as int).skip(start + 23 - fin) =~= mid.skip(start + 23));
            assert(mid.skip(start + 23) =~= old(buf)@.skip(start + 23)) by {
                assert(mid.skip(start + 18) =~= before.skip(start + 18));
                assert(mid.skip(start + 18).skip(5) =~= mid.skip(start + 23));
                assert(before.skip(start + 18).skip(5) =~= before.skip(start + 23));
            }
        }
    }
    fin
}

/// Fixed-width digits are ASCII digits.
pub proof fn lemma_fixed_digits_ascii(n: nat, w: nat)
    ensures
        forall|i: int| 0 <= i < fixed_digits(n, w).len() ==> 0x30 <= #[trigger] fixed_digits(n, w)[i] <= 0x39,
    decreases w,
{
    if w > 0 {
        lemma_fixed_digits_ascii(n / 10, (w - 1) as nat);
        let prev = fixed_digits(n / 10, (w - 1) as nat);
        let c = digit_char((n % 10) as int);
        assert(0x30 <= c <= 0x39);
        assert forall|i: int| 0 <= i < fixed_digits(n, w).len() implies 0x30 <= #[trigger] fixed_digits(n, w)[i] <= 0x39 by {
            if i < prev.len() {
                assert(fixed_digits(n, w)[i] == prev[i]);
            }
        }
    }
}

/// Decimal digits are ASCII digits.
pub proof fn lemma_decimal_digits_ascii(n: nat)
    ensures
        forall|i: int| 0 <= i < decimal_digits(n).len() ==> 0x30 <= #[trigger] decimal_digits(n)[i] <= 0x39,
    decreases n,
{
    if n >= 10 {
        lemma_decimal_digits_ascii(n / 10);
        let prev = decimal_digits(n / 10);
        let c = digit_char((n % 10) as int);
        assert(0x30 <= c <= 0x39);
        assert forall|i: int| 0 <= i < decimal_digits(n).len() implies 0x30 <= #[trigger] decimal_digits(n)[i] <= 0x39 by {
            if i < prev.len() {
                assert(decimal_digits(n)[i] == prev[i]);
            }
        }
    } else {
        assert(0x30 <= digit_char(n as int) <= 0x39);
    }
}

/// A positive number keeps a digit after its trailing zeros are stripped.
pub proof fn lemma_strip_decimal_positive(n: nat)
    requires
        n > 0,
    ensures
        strip_zeros(decimal_digits(n)).len() > 0,
    decreases n,
{
    if n >= 10 {
        if n % 10 == 0 {
            lemma_strip_decimal_positive(n / 10);
            assert(decimal_digits(n).drop_last() == decimal_digits(n / 10));
        }
    }
}

/// Scientific notation is ASCII.
pub proof fn lemma_scientific_ascii(d: nat, e: int)
    requires
        d > 0,
    ensures
        crate::is_ascii_bytes(scientific(d, e)),
{
    let digits = decimal_digits(d);
    let t = strip_zeros(digits);
    let x = e + digits.len() - 1;
    let n = if x < 0 { -x } else { x } as nat;
    lemma_decimal_digits_ascii(d);
    lemma_strip_len(digits);
    lemma_strip_decimal_positive(d);
    lemma_fixed_digits_ascii(n, 2);
    lemma_fixed_digits_ascii(n, 3);
    assert forall|i: int| 0 <= i < t.len() implies t[i] < 128 by {
        assert(t[i] == digits[i]);
    }
    let s = scientific(d, e);
    assert forall|i: int| 0 <= i < s.len() implies s[i] < 128 by {
        if i >= 2 + t.len() - 1 + 2 {
            let j = i - (2 + t.len() - 1 + 2);
            assert(s[i] == exponent_digits(n)[j]);
        } else if i >= 2 && i < 2 + t.len() - 1 {
            assert(s[i] == t[i - 1]);
        }
    }
}

/// The integer that a string of decimal digits denotes.
pub open spec fn digits_value(s: Seq<u8>) -> int
    decreases s.len(),
{
    if s.len() == 0 {
        0
    } else {
        digits_value(s.drop_last()) * 10 + (s.last() - 0x30)
    }
}

/// The significant digits that `scientific(d, e)` shows.
pub open spec fn shown_digits(d: nat) -> Seq<u8> {
    strip_zeros(decimal_digits(d))
}

/// The exponent that `scientific(d, e)` shows.
pub open spec fn shown_exponent(d: nat, e: int) -> int {
    e + decimal_digits(d).len() - 1
}

/// The decimal digits of `n` denote `n`.
pub proof fn lemma_decimal_digits_value(n: nat)
    ensures
        digits_value(decimal_digits(n)) == n,
    decreases n,
{
    if n >= 10 {
        lemma_decimal_digits_value(n / 10);
        assert(decimal_digits(n).drop_last() == decimal_digits(n / 10));
        assert(decimal_digits(n).last() == 0x30 + n % 10);
    } else {
        assert(decimal_digits(n).drop_last() =~= Seq::<u8>::empty());
        assert(decimal_digits(n).last() == 0x30 + n);
        assert(digits_value(Seq::<u8>::empty()) == 0);
    }
}

/// The fixed-width digits of `n` denote `n`.
pub proof fn lemma_fixed_digits_value(n: nat, w: nat)
    requires
        n < pow10(w),
    ensures
        digits_value(fixed_digits(n, w)) == n,
    decreases w,
{
    if w > 0 {
        assert(n / 10 < pow10((w - 1) as nat));
        lemma_fixed_digits_value(n / 10, (w - 1) as nat);
        assert(fixed_digits(n, w).drop_last() == fixed_digits(n / 10, (w - 1) as nat));
        assert(fixed_digits(n, w).last() == 0x30 + n % 10);
    }
}

/// Appending zeros multiplies by a power of ten.
pub proof fn lemma_digits_value_zeros(s: Seq<u8>, z: nat)
    ensures
        digits_value(s + zeros(z)) == digits_value(s) * pow10(z),
    decreases z,
{
    if z == 0 {
        assert(s + zeros(0) =~= s);
        assert(pow10(0) == 1);
    } else {
        assert((s + zeros(z)).drop_last() =~= s + zeros((z - 1) as nat));
        assert((s + zeros(z)).last() == 0x30);
        assert(digits_value(s + zeros(z)) == digits_value(s + zeros((z - 1) as nat)) * 10);
        lemma_digits_value_zeros(s, (z - 1) as nat);
        assert(digits_value(s) * pow10((z - 1) as nat) * 10 == digits_value(s) * pow10(z)) by (nonlinear_arith)
            requires pow10(z) == 10 * pow10((z - 1) as nat);
        assert(digits_value(s + zeros(z)) == digits_value(s) * pow10(z));
    }
}

/// Stripping trailing zeros leaves a prefix that the zeros complete.
pub proof fn lemma_strip_zeros_split(s: Seq<u8>)
    ensures
        s == strip_zeros(s) + zeros((s.len() - strip_zeros(s).len()) as nat),
    decreases s.len(),
{
    lemma_strip_len(s);
    if s.len() > 0 && s.last() == 0x30 {
        lemma_strip_zeros_split(s.drop_last());
        let t = strip_zeros(s);
        assert(t == strip_zeros(s.drop_last()));
        let k = (s.len() - 1 - t.len()) as nat;
        assert(s.drop_last() == t + zeros(k));
        assert(s =~= (t + zeros(k)).push(0x30u8));
        assert((t + zeros(k)).push(0x30u8) =~= t + zeros(k + 1));
    } else {
        assert(s =~= s + zeros(0));
    }
}

/// Scientific notation denotes exactly `d * 10^e`: the digits shown, with
/// the point after the first one and the exponent shown, are `d * 10^e`.
/// Neither the first nor the last digit shown is a zero.
pub proof fn lemma_scientific_exact(d: nat, e: int)
    requires
        d > 0,
    ensures
        scientific(d, e) == seq![shown_digits(d)[0], 0x2eu8] + shown_digits(d).drop_first() + seq![
            0x65u8,
            if shown_exponent(d, e) < 0 { 0x2du8 } else { 0x2bu8 },
        ] + exponent_digits(if shown_exponent(d, e) < 0 { -shown_exponent(d, e) } else { shown_exponent(d, e) } as nat),
        digits_value(shown_digits(d)) * pow10((decimal_digits(d).len() - shown_digits(d).len()) as nat) == d,
        shown_exponent(d, e) - (shown_digits(d).len() - 1) == e + (decimal_digits(d).len() - shown_digits(d).len()),
        shown_digits(d).len() >= 1,
        shown_digits(d)[0] != 0x30,
        shown_digits(d).last() != 0x30,
{
    let digits = decimal_digits(d);
    lemma_decimal_digits_value(d);
    lemma_strip_zeros_split(digits);
    lemma_strip_len(digits);
    lemma_strip_decimal_positive(d);
    let t = strip_zeros(digits);
    lemma_digits_value_zeros(t, (digits.len() - t.len()) as nat);
    lemma_leading_digit(d);
    assert(t[0] == digits[0]);
}

/// The first digit of a positive number is not a zero.
pub proof fn lemma_leading_digit(n: nat)
    requires
        n > 0,
    ensures
        decimal_digits(n)[0] != 0x30,
        decimal_digits(n).len() >= 1,
    decreases n,
{
    if n >= 10 {
        lemma_leading_digit(n / 10);
        assert(decimal_digits(n)[0] == decimal_digits(n / 10)[0]);
    }
}

/// The exponent field denotes the exponent.
pub proof fn lemma_exponent_digits_value(n: nat)
    requires
        n < 1000,
    ensures
        digits_value(exponent_digits(n)) == n,
{
    lemma_pow10_values();
    reveal_with_fuel(pow10, 4);
    if n >= 100 {
        lemma_fixed_digits_value(n, 3);
    } else {
        lemma_fixed_digits_value(n, 2);
    }
}

} // verus!
