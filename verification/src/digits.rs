//! Decimal digits: their specification, and the small conversions that
//! produce them eight ASCII characters at a time.

use vstd::prelude::*;

verus! {

/// The ASCII character of the decimal digit `d`.
pub open spec fn digit_char(d: int) -> u8 {
    (0x30 + d) as u8
}

/// The `w` low decimal digits of `n`, most significant first, padded
/// with leading zeros.
pub open spec fn fixed_digits(n: nat, w: nat) -> Seq<u8>
    decreases w,
{
    if w == 0 {
        Seq::empty()
    } else {
        fixed_digits(n / 10, (w - 1) as nat).push(digit_char((n % 10) as int))
    }
}

/// The decimal digits of `n`, most significant first, without leading
/// zeros (a single `0` for zero).
pub open spec fn decimal_digits(n: nat) -> Seq<u8>
    decreases n,
{
    if n < 10 {
        seq![digit_char(n as int)]
    } else {
        decimal_digits(n / 10).push(digit_char((n % 10) as int))
    }
}

/// `s` without its trailing `0` characters.
pub open spec fn strip_zeros(s: Seq<u8>) -> Seq<u8>
    decreases s.len(),
{
    if s.len() > 0 && s.last() == 0x30 {
        strip_zeros(s.drop_last())
    } else {
        s
    }
}

/// Byte `i` of `x`, counting from the least significant one.
pub open spec fn byte_of(x: u64, i: int) -> u8 {
    ((x >> ((8 * i) as u64)) & 0xff) as u8
}

/// The eight bytes of `x` in memory order on a little-endian machine:
/// least significant first.
pub open spec fn bytes_of(x: u64) -> Seq<u8> {
    Seq::new(8, |i: int| byte_of(x, i))
}

/// `{value / 100, value % 100}`.
pub struct DivmodResult {
    pub div: u32,
    pub rem: u32,
}

const DIVMOD_EXP: u32 = 19;

const DIVMOD_SIG: u32 = (1 << DIVMOD_EXP) / 100 + 1;

/// Divides a number of at most four digits by 100, with a multiplication
/// and a shift in place of the division.
pub fn divmod100(value: u32) -> (r: DivmodResult)
    requires
        value < 10_000,
    ensures
        r.div == value / 100,
        r.rem == value % 100,
{
    proof {
        assert((1u32 << 19u32) / 100 + 1 == 5243 && (value < 10_000 ==> ((value * 5243) as u32) >> 19u32
            == value / 100)) by (bit_vector);
    }
    let div = (value * DIVMOD_SIG) >> DIVMOD_EXP;
    DivmodResult { div, rem: value - div * 100 }
}

/// The number of bytes of `x`, counted from the least significant one, up
/// to and including the most significant byte among the low `n` bytes that
/// is not the character `0`.
pub open spec fn significant_len(x: u64, n: nat) -> nat
    decreases n,
{
    if n == 0 {
        0
    } else if byte_of(x, n - 1) != 0x30 {
        n
    } else {
        significant_len(x, (n - 1) as nat)
    }
}

/// Where the most significant set bit of `y` lies within the eight bits from
/// `lo` up, `y`'s count of leading zeros says which byte it is in.
proof fn lemma_msb_window(y: u64, lz: u64, lo: u64)
    requires
        lo % 8 == 1,
        lo <= 57,
        y >> lo != 0,
        lo + 8 >= 64 || y >> ((lo + 8) as u64) == 0,
        lz < 64,
        (y >> ((63 - lz) as u64)) & 1 != 0,
        y >> ((64 - lz) as u64) == 0,
    ensures
        (70 - lz) / 8 == (lo + 7) / 8,
{
    let hi = (lo + 8) as u64;
    let top = (63 - lz) as u64;
    let above = (64 - lz) as u64;
    assert(lo <= top) by (bit_vector)
        requires
            y >> lo != 0u64,
            y >> above == 0u64,
            lz < 64u64,
            above == 64u64 - lz,
            top == 63u64 - lz;
    assert(top < hi) by (bit_vector)
        requires
            hi >= 64u64 || y >> hi == 0u64,
            (y >> top) & 1u64 != 0u64,
            lz < 64u64,
            top == 63u64 - lz;
}

/// Where the sentinel XOR leaves the most significant set bit: in the most
/// significant byte that is not `0`, or at the sentinel when all are.
proof fn lemma_sentinel_bytes(x: u64, y: u64)
    by (bit_vector)
    requires
        y == (x << 1u64) ^ 0x6060_6060_6060_6061u64,
    ensures
        y != 0,
        ((((x & 0x7fff_ffff_ffff_ffffu64) >> 56u64) & 0xff) as u8 != 0x30u8) ==> (y >> 57u64 != 0),
        ((((x & 0x7fff_ffff_ffff_ffffu64) >> 48u64) & 0xff) as u8 != 0x30u8 && (((x & 0x7fff_ffff_ffff_ffffu64) >> 56u64) & 0xff) as u8 == 0x30u8) ==> (y >> 49u64 != 0 && y >> 57u64 == 0),
        ((((x & 0x7fff_ffff_ffff_ffffu64) >> 40u64) & 0xff) as u8 != 0x30u8 && (((x & 0x7fff_ffff_ffff_ffffu64) >> 48u64) & 0xff) as u8 == 0x30u8 && (((x & 0x7fff_ffff_ffff_ffffu64) >> 56u64) & 0xff) as u8 == 0x30u8) ==> (y >> 41u64 != 0 && y >> 49u64 == 0),
        ((((x & 0x7fff_ffff_ffff_ffffu64) >> 32u64) & 0xff) as u8 != 0x30u8 && (((x & 0x7fff_ffff_ffff_ffffu64) >> 40u64) & 0xff) as u8 == 0x30u8 && (((x & 0x7fff_ffff_ffff_ffffu64) >> 48u64) & 0xff) as u8 == 0x30u8 && (((x & 0x7fff_ffff_ffff_ffffu64) >> 56u64) & 0xff) as u8 == 0x30u8) ==> (y >> 33u64 != 0 && y >> 41u64 == 0),
        ((((x & 0x7fff_ffff_ffff_ffffu64) >> 24u64) & 0xff) as u8 != 0x30u8 && (((x & 0x7fff_ffff_ffff_ffffu64) >> 32u64) & 0xff) as u8 == 0x30u8 && (((x & 0x7fff_ffff_ffff_ffffu64) >> 40u64) & 0xff) as u8 == 0x30u8 && (((x & 0x7fff_ffff_ffff_ffffu64) >> 48u64) & 0xff) as u8 == 0x30u8 && (((x & 0x7fff_ffff_ffff_ffffu64) >> 56u64) & 0xff) as u8 == 0x30u8) ==> (y >> 25u64 != 0 && y >> 33u64 == 0),
        ((((x & 0x7fff_ffff_ffff_ffffu64) >> 16u64) & 0xff) as u8 != 0x30u8 && (((x & 0x7fff_ffff_ffff_ffffu64) >> 24u64) & 0xff) as u8 == 0x30u8 && (((x & 0x7fff_ffff_ffff_ffffu64) >> 32u64) & 0xff) as u8 == 0x30u8 && (((x & 0x7fff_ffff_ffff_ffffu64) >> 40u64) & 0xff) as u8 == 0x30u8 && (((x & 0x7fff_ffff_ffff_ffffu64) >> 48u64) & 0xff) as u8 == 0x30u8 && (((x & 0x7fff_ffff_ffff_ffffu64) >> 56u64) & 0xff) as u8 == 0x30u8) ==> (y >> 17u64 != 0 && y >> 25u64 == 0),
        ((((x & 0x7fff_ffff_ffff_ffffu64) >> 8u64) & 0xff) as u8 != 0x30u8 && (((x & 0x7fff_ffff_ffff_ffffu64) >> 16u64) & 0xff) as u8 == 0x30u8 && (((x & 0x7fff_ffff_ffff_ffffu64) >> 24u64) & 0xff) as u8 == 0x30u8 && (((x & 0x7fff_ffff_ffff_ffffu64) >> 32u64) & 0xff) as u8 == 0x30u8 && (((x & 0x7fff_ffff_ffff_ffffu64) >> 40u64) & 0xff) as u8 == 0x30u8 && (((x & 0x7fff_ffff_ffff_ffffu64) >> 48u64) & 0xff) as u8 == 0x30u8 && (((x & 0x7fff_ffff_ffff_ffffu64) >> 56u64) & 0xff) as u8 == 0x30u8) ==> (y >> 9u64 != 0 && y >> 17u64 == 0),
        ((((x & 0x7fff_ffff_ffff_ffffu64) >> 0u64) & 0xff) as u8 != 0x30u8 && (((x & 0x7fff_ffff_ffff_ffffu64) >> 8u64) & 0xff) as u8 == 0x30u8 && (((x & 0x7fff_ffff_ffff_ffffu64) >> 16u64) & 0xff) as u8 == 0x30u8 && (((x & 0x7fff_ffff_ffff_ffffu64) >> 24u64) & 0xff) as u8 == 0x30u8 && (((x & 0x7fff_ffff_ffff_ffffu64) >> 32u64) & 0xff) as u8 == 0x30u8 && (((x & 0x7fff_ffff_ffff_ffffu64) >> 40u64) & 0xff) as u8 == 0x30u8 && (((x & 0x7fff_ffff_ffff_ffffu64) >> 48u64) & 0xff) as u8 == 0x30u8 && (((x & 0x7fff_ffff_ffff_ffffu64) >> 56u64) & 0xff) as u8 == 0x30u8) ==> (y >> 1u64 != 0 && y >> 9u64 == 0),
        ((((x & 0x7fff_ffff_ffff_ffffu64) >> 0u64) & 0xff) as u8 == 0x30u8 && (((x & 0x7fff_ffff_ffff_ffffu64) >> 8u64) & 0xff) as u8 == 0x30u8 && (((x & 0x7fff_ffff_ffff_ffffu64) >> 16u64) & 0xff) as u8 == 0x30u8 && (((x & 0x7fff_ffff_ffff_ffffu64) >> 24u64) & 0xff) as u8 == 0x30u8 && (((x & 0x7fff_ffff_ffff_ffffu64) >> 32u64) & 0xff) as u8 == 0x30u8 && (((x & 0x7fff_ffff_ffff_ffffu64) >> 40u64) & 0xff) as u8 == 0x30u8 && (((x & 0x7fff_ffff_ffff_ffffu64) >> 48u64) & 0xff) as u8 == 0x30u8 && (((x & 0x7fff_ffff_ffff_ffffu64) >> 56u64) & 0xff) as u8 == 0x30u8) ==> y == 1,
{
}

const MASK_WITH_SENTINEL: u64 = 0x6060_6060_6060_6061;

/// Counts the characters of a little-endian string of eight ASCII digits
/// packed in `x`, up to the last one that is not `0`: trailing zeros are
/// what is dropped. The top bit of `x`, never set for digits, is ignored.
pub fn count_trailing_nonzeros(x: u64) -> (r: usize)
    ensures
        r == significant_len(x & 0x7fff_ffff_ffff_ffff, 8),
{
    // With x shifted left by one, an XOR both clears the `0` characters and
    // sets a sentinel bit below them, so that the count of leading zeros is
    // never 64.
    let y = (x << 1) ^ MASK_WITH_SENTINEL;
    let lz = y.leading_zeros();
    proof {
        let xm = x & 0x7fff_ffff_ffff_ffffu64;
        let lz64 = lz as u64;
        lemma_sentinel_bytes(x, y);
        vstd::std_specs::bits::axiom_u64_leading_zeros(y);
        reveal_with_fuel(significant_len, 9);
        if byte_of(xm, 7) != 0x30 {
            lemma_msb_window(y, lz64, 57);
        } else if byte_of(xm, 6) != 0x30 {
            lemma_msb_window(y, lz64, 49);
        } else if byte_of(xm, 5) != 0x30 {
            lemma_msb_window(y, lz64, 41);
        } else if byte_of(xm, 4) != 0x30 {
            lemma_msb_window(y, lz64, 33);
        } else if byte_of(xm, 3) != 0x30 {
            lemma_msb_window(y, lz64, 25);
        } else if byte_of(xm, 2) != 0x30 {
            lemma_msb_window(y, lz64, 17);
        } else if byte_of(xm, 1) != 0x30 {
            lemma_msb_window(y, lz64, 9);
        } else if byte_of(xm, 0) != 0x30 {
            lemma_msb_window(y, lz64, 1);
        } else {
            assert(lz64 == 63) by (bit_vector)
                requires
                    y == 1,
                    lz64 < 64,
                    (y >> ((63 - lz64) as u64)) & 1 != 0,
                    y >> ((64 - lz64) as u64) == 0;
        }
    }
    ((70 - lz) / 8) as usize
}

/// 10^n.
pub open spec fn pow10(n: nat) -> nat
    decreases n,
{
    if n == 0 {
        1
    } else {
        10 * pow10((n - 1) as nat)
    }
}

/// `fixed_digits` of a number split at a power of ten is the concatenation
/// of the digits of the two parts.
pub proof fn lemma_fixed_digits_split(hi: nat, lo: nat, w1: nat, w2: nat)
    requires
        lo < pow10(w2),
    ensures
        fixed_digits(hi * pow10(w2) + lo, w1 + w2) == fixed_digits(hi, w1) + fixed_digits(lo, w2),
    decreases w2,
{
    if w2 == 0 {
        assert(fixed_digits(hi, w1) + fixed_digits(lo, 0) =~= fixed_digits(hi, w1));
    } else {
        let n = hi * pow10(w2) + lo;
        let p = pow10((w2 - 1) as nat);
        assert(hi * pow10(w2) == (hi * p) * 10) by (nonlinear_arith)
            requires pow10(w2) == 10 * p;
        crate::wide::lemma_div_offset((hi * p) as int, lo as int, 10);
        assert(lo / 10 < p) by (nonlinear_arith)
            requires lo < pow10(w2), pow10(w2) == 10 * p;
        lemma_fixed_digits_split(hi, lo / 10, w1, (w2 - 1) as nat);
        assert(n / 10 == hi * p + lo / 10);
        assert(fixed_digits(n, w1 + w2) =~= fixed_digits(hi, w1) + fixed_digits(lo, w2));
    }
}

/// The two ASCII digits of a number below 100.
pub fn digits2(value: usize) -> (r: [u8; 2])
    requires
        value < 100,
    ensures
        r@ == fixed_digits(value as nat, 2),
{
    let r = [0x30 + (value / 10) as u8, 0x30 + (value % 10) as u8];
    proof {
        reveal_with_fuel(fixed_digits, 3);
        assert(value as nat / 10 / 10 == 0);
        assert(r@ =~= fixed_digits(value as nat, 2));
    }
    r
}

/// The two ASCII digits of a number below 100 as a little-endian integer:
/// the first character in the low byte.
pub fn digits2_u64(value: u32) -> (r: u64)
    requires
        value < 100,
    ensures
        r == fixed_digits(value as nat, 2)[0] + 256 * fixed_digits(value as nat, 2)[1],
{
    let d = digits2(value as usize);
    let tens = d[0];
    let ones = d[1];
    proof {
        assert((tens as u64) | ((ones as u64) << 8u64) == tens + 256 * ones) by (bit_vector);
    }
    (tens as u64) | ((ones as u64) << 8)
}

/// Converts `aa * 10^6 + bb * 10^4 + cc * 10^2 + dd` to its eight ASCII
/// digits, packed little-endian in a 64-bit integer.
pub fn digits8_u64(aa: u32, bb: u32, cc: u32, dd: u32) -> (r: u64)
    requires
        aa < 100,
        bb < 100,
        cc < 100,
        dd < 100,
    ensures
        bytes_of(r) == fixed_digits((aa * 1_000_000 + bb * 10_000 + cc * 100 + dd) as nat, 8),
{
    let a = digits2_u64(aa);
    let b = digits2_u64(bb);
    let c = digits2_u64(cc);
    let d = digits2_u64(dd);
    let r = d << 48 | c << 32 | b << 16 | a;
    proof {
        let fa = fixed_digits(aa as nat, 2);
        let fb = fixed_digits(bb as nat, 2);
        let fc = fixed_digits(cc as nat, 2);
        let fd = fixed_digits(dd as nat, 2);
        assert(pow10(2) == 100) by {
            reveal_with_fuel(pow10, 3);
        }
        lemma_fixed_digits_split(aa as nat, bb as nat, 2, 2);
        lemma_fixed_digits_split((aa * 100 + bb) as nat, cc as nat, 4, 2);
        lemma_fixed_digits_split((aa * 10_000 + bb * 100 + cc) as nat, dd as nat, 6, 2);
        assert((aa * 10_000 + bb * 100 + cc) * 100 + dd == aa * 1_000_000 + bb * 10_000 + cc * 100 + dd);
        assert((aa * 100 + bb) * 100 + cc == aa * 10_000 + bb * 100 + cc);
        let full = fa + fb + fc + fd;
        assert(fixed_digits((aa * 1_000_000 + bb * 10_000 + cc * 100 + dd) as nat, 8) == full);
        assert(fa.len() == 2 && fb.len() == 2 && fc.len() == 2 && fd.len() == 2) by {
            reveal_with_fuel(fixed_digits, 3);
        }
        assert(a == fa[0] + 256 * fa[1]);
        assert(byte_of(r, 0) == fa[0] && byte_of(r, 1) == fa[1]
            && byte_of(r, 2) == fb[0] && byte_of(r, 3) == fb[1]
            && byte_of(r, 4) == fc[0] && byte_of(r, 5) == fc[1]
            && byte_of(r, 6) == fd[0] && byte_of(r, 7) == fd[1]) by {
            lemma_pack_bytes(a, b, c, d, r, fa[0], fa[1], fb[0], fb[1], fc[0], fc[1], fd[0], fd[1]);
        }
        assert(bytes_of(r) =~= full);
    }
    r
}

/// The bytes of four 16-bit little-endian pairs packed side by side.
proof fn lemma_pack_bytes(
    a: u64,
    b: u64,
    c: u64,
    d: u64,
    r: u64,
    a0: u8,
    a1: u8,
    b0: u8,
    b1: u8,
    c0: u8,
    c1: u8,
    d0: u8,
    d1: u8,
)
    requires
        a == a0 + 256 * a1,
        b == b0 + 256 * b1,
        c == c0 + 256 * c1,
        d == d0 + 256 * d1,
        r == d << 48 | c << 32 | b << 16 | a,
    ensures
        byte_of(r, 0) == a0,
        byte_of(r, 1) == a1,
        byte_of(r, 2) == b0,
        byte_of(r, 3) == b1,
        byte_of(r, 4) == c0,
        byte_of(r, 5) == c1,
        byte_of(r, 6) == d0,
        byte_of(r, 7) == d1,
{
    assert(
        ((r >> 0u64) & 0xff) as u8 == a0
        && ((r >> 8u64) & 0xff) as u8 == a1
        && ((r >> 16u64) & 0xff) as u8 == b0
        && ((r >> 24u64) & 0xff) as u8 == b1
        && ((r >> 32u64) & 0xff) as u8 == c0
        && ((r >> 40u64) & 0xff) as u8 == c1
        && ((r >> 48u64) & 0xff) as u8 == d0
        && ((r >> 56u64) & 0xff) as u8 == d1
    ) by (bit_vector)
        requires
            a == a0 + 256 * a1,
            b == b0 + 256 * b1,
            c == c0 + 256 * c1,
            d == d0 + 256 * d1,
            r == d << 48 | c << 32 | b << 16 | a;
}

} // verus!
