#![allow(clippy::unreadable_literal)]

use zmij::{
    count_trailing_nonzeros, digits2, digits2_u64, digits8_u64, divmod100, dtoa, to_decimal,
    umul128, umul192_upper128, write_significand, Buffer, UInt,
    BUFFER_SIZE, POW10_SIGNIFICANDS,
};

fn dtoa_string(value: f64) -> String {
    Buffer::new().format(value.to_bits()).to_owned()
}

#[test]
fn normal() {
    assert_eq!(dtoa_string(6.62607015e-34), "6.62607015e-34");
}

#[test]
fn small_int() {
    assert_eq!(dtoa_string(1.0), "1.e+00");
}

#[test]
fn zero() {
    assert_eq!(dtoa_string(0.0), "0");
    assert_eq!(dtoa_string(-0.0), "-0");
}

#[test]
fn inf() {
    assert_eq!(dtoa_string(f64::INFINITY), "inf");
    assert_eq!(dtoa_string(f64::NEG_INFINITY), "-inf");
}

#[test]
fn nan() {
    assert_eq!(dtoa_string(f64::NAN.copysign(1.0)), "NaN");
    assert_eq!(dtoa_string(f64::NAN.copysign(-1.0)), "NaN");
}

#[test]
fn shorter() {
    // A possibly shorter underestimate is picked (u' in Schubfach).
    assert_eq!(dtoa_string(-4.932096661796888e-226), "-4.932096661796888e-226");

    // A possibly shorter overestimate is picked (w' in Schubfach).
    assert_eq!(dtoa_string(3.439070283483335e+35), "3.439070283483335e+35");
}

#[test]
fn single_candidate() {
    // Only an underestimate is in the rounding region (u in Schubfach).
    assert_eq!(dtoa_string(6.606854224493745e-17), "6.606854224493745e-17");

    // Only an overestimate is in the rounding region (w in Schubfach).
    assert_eq!(dtoa_string(6.079537928711555e+61), "6.079537928711555e+61");
}

#[test]
fn utilities() {
    let countl_zero = u64::leading_zeros;
    assert_eq!(countl_zero(0), 64);
    assert_eq!(countl_zero(1), 63);
    assert_eq!(countl_zero(!0), 0);

    assert_eq!(count_trailing_nonzeros(0x30303030_30303030), 0);
    assert_eq!(count_trailing_nonzeros(0x30303030_30303031), 1);
    assert_eq!(count_trailing_nonzeros(0x30303030_30303039), 1);
    assert_eq!(count_trailing_nonzeros(0x30393030_39303030), 7);
    assert_eq!(count_trailing_nonzeros(0x31303030_30303030), 8);
    assert_eq!(count_trailing_nonzeros(0x39303030_30303030), 8);
}

#[test]
fn umul192_upper64_inexact_to_odd() {
    let (hi, lo) = POW10_SIGNIFICANDS[0];
    assert_eq!(
        zmij::umul192_upper64_inexact_to_odd(hi, lo, 0x1234567890abcdef << 1),
        0x24554a3ce60a45f5,
    );
    assert_eq!(
        zmij::umul192_upper64_inexact_to_odd(hi, lo, 0x1234567890abce16 << 1),
        0x24554a3ce60a4643,
    );
}

#[test]
fn extremes() {
    assert_eq!(dtoa_string(5e-324), "5.e-324");
    assert_eq!(dtoa_string(-5e-324), "-5.e-324");
    assert_eq!(dtoa_string(1e-310), "1.e-310");
    assert_eq!(dtoa_string(2.2250738585072014e-308), "2.2250738585072014e-308");
    assert_eq!(dtoa_string(2.225073858507201e-308), "2.225073858507201e-308");
    assert_eq!(dtoa_string(f64::MAX), "1.7976931348623157e+308");
    assert_eq!(dtoa_string(f64::MIN), "-1.7976931348623157e+308");
}

#[test]
fn integers() {
    assert_eq!(dtoa_string(100.0), "1.e+02");
    assert_eq!(dtoa_string(123456.0), "1.23456e+05");
    assert_eq!(dtoa_string(-1.5), "-1.5e+00");
    assert_eq!(dtoa_string(4503599627370496.0), "4.503599627370496e+15");
    assert_eq!(dtoa_string(9007199254740992.0), "9.007199254740992e+15");
    assert_eq!(dtoa_string(1e16), "1.e+16");
    assert_eq!(dtoa_string(1e23), "1.e+23");
}

#[test]
fn fractions() {
    assert_eq!(dtoa_string(0.1), "1.e-01");
    assert_eq!(dtoa_string(0.3), "3.e-01");
    assert_eq!(dtoa_string(12345.678), "1.2345678e+04");
}

#[test]
fn reads_back() {
    let values = [
        6.62607015e-34, 0.1, 0.2, 1.0 / 3.0, 2.0 / 3.0, 1e-300, 1.5e300, 123.456, 9.999999999999999e22,
        5e-324, 1e-323, f64::MAX, f64::MIN_POSITIVE, std::f64::consts::PI, std::f64::consts::E,
    ];
    for v in values {
        let s = dtoa_string(v);
        let back: f64 = s.parse().unwrap();
        assert_eq!(back.to_bits(), v.to_bits(), "{}", s);
        let back_neg: f64 = dtoa_string(-v).parse().unwrap();
        assert_eq!(back_neg.to_bits(), (-v).to_bits());
    }
}

#[test]
fn buffer_default_and_reuse() {
    let mut b = Buffer::default();
    assert_eq!(b.format(2.5f64.to_bits()), "2.5e+00");
    assert_eq!(b.format(0.0f64.to_bits()), "0");
    assert_eq!(b.format((-0.25f64).to_bits()), "-2.5e-01");
}

#[test]
fn dtoa_into_bytes() {
    let mut buf = [0u8; BUFFER_SIZE];
    let len = dtoa(&mut buf, 1.25f64.to_bits());
    assert_eq!(&buf[..len], b"1.25e+00");
}

#[test]
fn decimal_conversion() {
    // 1.0 = 2^52 * 2^-52, an integer.
    assert_eq!(to_decimal(1 << 52, -52, false), (1, 0));
    // 6 = 3 * 2^51 * 2^-50... as 0x18000000000000 * 2^-50.
    assert_eq!(to_decimal(0x18_0000_0000_0000, -50, true), (6, 0));
    // The least subnormal, 4.94e-324, rounds to 5e-324.
    assert_eq!(to_decimal(1, -1074, true), (5, -324));
}

#[test]
fn divisions() {
    let r = divmod100(9999);
    assert_eq!((r.div, r.rem), (99, 99));
    let r = divmod100(1234);
    assert_eq!((r.div, r.rem), (12, 34));
    let r = divmod100(7);
    assert_eq!((r.div, r.rem), (0, 7));
}

#[test]
fn digit_pairs() {
    assert_eq!(digits2(7), [b'0', b'7']);
    assert_eq!(digits2(42), [b'4', b'2']);
    assert_eq!(digits2_u64(42), u64::from(b'4') | (u64::from(b'2') << 8));
    assert_eq!(digits8_u64(12, 34, 56, 78).to_le_bytes(), *b"12345678");
    assert_eq!(digits8_u64(0, 0, 0, 5).to_le_bytes(), *b"00000005");
}

#[test]
fn trailing_zeros_dropped() {
    let mut buf = [b'x'; BUFFER_SIZE];
    let end = write_significand(&mut buf, 1, 12345678901234560);
    assert_eq!(&buf[1..end], b"1234567890123456");
    let end = write_significand(&mut buf, 0, 10000000000000000);
    assert_eq!(&buf[..end], b"1");
    let end = write_significand(&mut buf, 0, 1000000000000000);
    assert_eq!(&buf[..end], b"1");
    let end = write_significand(&mut buf, 0, 99999999999999999);
    assert_eq!(&buf[..end], b"99999999999999999");
}

#[test]
fn wide_products() {
    assert_eq!(umul128(u64::MAX, u64::MAX), 0xffff_ffff_ffff_fffe_0000_0000_0000_0001);
    let r = umul192_upper128(u64::MAX, u64::MAX, u64::MAX);
    // (2^128 - 1) * (2^64 - 1) / 2^64 = 2^128 - 2^64 - 1.
    assert_eq!(r.hi, u64::MAX - 1);
    assert_eq!(r.lo, u64::MAX);
    // Rounding to odd: the lowest bit is set when a dropped bit other than
    // the lowest one is set.
    assert_eq!(zmij::umul192_upper64_inexact_to_odd(0, 1 << 63, 2), 0);
    assert_eq!(zmij::umul192_upper64_inexact_to_odd(4, 0, 1 << 63), 2);
    assert_eq!(zmij::umul192_upper64_inexact_to_odd(5, 0, 1 << 63), 3);
}

#[test]
fn uint_helpers() {
    assert_eq!(UInt::wrapping_sub(3u32, 5u32), u32::MAX - 1);
    assert_eq!(<u32 as UInt>::truncate(0x1_0000_0005), 5);
    assert_eq!(UInt::wrapping_sub(3u64, 5u64), u64::MAX - 1);
    assert_eq!(<u64 as UInt>::truncate(0x1_0000_0005), 0x1_0000_0005);
}

fn decode(value: f64) -> (u64, i32, bool) {
    let bits = value.to_bits();
    let field = ((bits >> 52) & 0x7ff) as i32;
    let mantissa = bits & ((1 << 52) - 1);
    if field == 0 {
        (mantissa, -1074, true)
    } else {
        (mantissa | (1 << 52), field - 1075, mantissa != 0)
    }
}

#[test]
fn decimal_reads_back() {
    for v in [0.1, 0.3, 6.62607015e-34, 3.439070283483335e+35, 6.079537928711555e+61, 5e-324, 1e23, f64::MAX] {
        let (sig, exp, regular) = decode(v);
        let (dec_sig, dec_exp) = to_decimal(sig, exp, regular);
        assert!(dec_sig > 0 && dec_sig < 100_000_000_000_000_000);
        let back: f64 = format!("{}e{}", dec_sig, dec_exp).parse().unwrap();
        assert_eq!(back, v);
    }
}

#[test]
fn negation_adds_sign() {
    for v in [1.0, 0.1, 5e-324, 1e300, 123.0, 0.0, f64::INFINITY] {
        assert_eq!(dtoa_string(-v), format!("-{}", dtoa_string(v)));
    }
}

#[test]
fn small_integers_exact() {
    // (2^53 - 2) * 2^-1 = 2^52 - 1, an integer.
    assert_eq!(to_decimal(0x1f_ffff_ffff_fffe, -1, true), (4503599627370495, 0));
    assert_eq!(dtoa_string(4503599627370495.0), "4.503599627370495e+15");
    // (2^53 - 1) * 2^-1 is not an integer: the general path rounds it.
    let (dec_sig, dec_exp) = to_decimal(0x1f_ffff_ffff_ffff, -1, true);
    assert_eq!(format!("{}e{}", dec_sig, dec_exp).parse::<f64>().unwrap(), 4503599627370495.5);
}

#[test]
fn table_entries_of_exact_powers() {
    // Up to 10^38 the power of ten scaled to 128 bits is an integer, and its
    // entry is one unit above it.
    let mut power: u128 = 1;
    for k in 0..=38usize {
        let bin_exp = 127 - power.leading_zeros();
        let scaled = power << (127 - bin_exp);
        let (hi, lo) = POW10_SIGNIFICANDS[k + 292];
        let entry = (u128::from(hi) << 64) | u128::from(lo);
        assert_eq!(entry, scaled + 1, "10^{}", k);
        if k < 38 {
            power *= 10;
        }
    }
}

#[test]
fn decimal_exponent_is_floor_log10() {
    // For the binary exponents whose powers of two fit in 120 bits, the
    // decimal exponent is floor(log10(2^e)), or floor(log10(3/4 * 2^e)) for
    // the significand that is the implicit bit alone.
    for e in 0..=120i32 {
        let two_e: u128 = 1 << e;
        let (_, dr) = to_decimal((1 << 52) + 1, e, true);
        let p = 10u128.pow(dr as u32);
        assert!(p <= two_e && two_e < 10 * p, "2^{}", e);
        let (_, di) = to_decimal(1 << 52, e, false);
        if di >= 0 {
            let q = 10u128.pow(di as u32);
            assert!(4 * q <= 3 * two_e && 3 * two_e < 40 * q, "3/4 * 2^{}", e);
        } else {
            assert_eq!((e, di), (0, -1));
        }
    }
}

#[test]
fn integers_of_53_bits_exact() {
    assert_eq!(to_decimal((1 << 52) + 1, 0, true), ((1 << 52) + 1, 0));
    assert_eq!(to_decimal((1 << 53) - 1, 0, true), ((1 << 53) - 1, 0));
    assert_eq!(to_decimal(1 << 52, 0, false), (10 << 52, -1));
    assert_eq!(dtoa_string(4503599627370496.0), "4.503599627370496e+15");
    assert_eq!(dtoa_string(9007199254740991.0), "9.007199254740991e+15");
    assert_eq!(dtoa_string(-4503599627370497.0), "-4.503599627370497e+15");
}

#[test]
fn output_fits_with_terminator() {
    // The longest renderings: a negative 17-digit significand with a
    // three-digit negative exponent.
    let s = dtoa_string(-2.2250738585072014e-308);
    assert_eq!(s, "-2.2250738585072014e-308");
    assert!(s.len() < BUFFER_SIZE);
}

#[test]
fn decimal_near_rounding_interval() {
    // (4m - 2) * 2^e < (4 * sig + 1) * 10^x and (4 * sig - 4) * 10^x <
    // (4m + 2) * 2^e, checked exactly where the numbers fit in 128 bits.
    let sigs: [u64; 5] = [
        (1 << 52) + 1,
        0x1f_ffff_ffff_ffff,
        0x18_0000_0000_0001,
        0x1a_bcde_f012_3457,
        0x13_3333_3333_3333,
    ];
    for &m in sigs.iter() {
        for e in 0..=60i32 {
            let (sig, x) = to_decimal(m, e, true);
            assert!(x >= 0);
            let two_e: u128 = 1 << e;
            let ten_x: u128 = 10u128.pow(x as u32);
            let m = u128::from(m);
            let sig = u128::from(sig);
            assert!((4 * m - 2) * two_e < (4 * sig + 1) * ten_x, "{} * 2^{}", m, e);
            assert!((4 * sig - 4) * ten_x < (4 * m + 2) * two_e, "{} * 2^{}", m, e);
        }
    }
}
