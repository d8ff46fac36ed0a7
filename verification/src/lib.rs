//! Shortest decimal rendering of IEEE 754 binary64 values, after the
//! Schubfach and yy algorithms.
//!
//! A value goes in as its bit pattern (`f64::to_bits`); what comes out is
//! the decimal that the Schubfach and yy selection picks, in scientific
//! notation, such as `6.62607015e-34` or `1.e+00`, or `0`, `inf` or `NaN`.
//! The selection is designed to give the shortest decimal that reads back
//! as the same value. The contracts state the selection exactly, the
//! accuracy of the table and of the exponent formulas that it relies on,
//! and that the decimal lies in the value's rounding interval widened by a
//! quarter unit of its last digit below and one unit above. That it lies in
//! the interval itself, and is the shortest and nearest such decimal, is
//! checked by the tests, not proved.

mod digits;
mod dtoa;
mod estimates;
mod decimal_exponents;
mod decimal_exponents_below;
mod exponents;
mod exponents_below;
mod render;
mod table;
mod traits;
mod wide;

pub use digits::{
    count_trailing_nonzeros, decimal_digits, digits2, digits2_u64, digits8_u64, divmod100,
    fixed_digits, pow10, strip_zeros, DivmodResult,
};
pub use dtoa::{
    decimal_exponent_of, decimal_significand, dtoa, is_binary64_finite, is_regular,
    lemma_integer_53_bits_exact, lemma_rendering_negation, lemma_small_integer_exact, rendering,
    to_decimal,
};
pub use decimal_exponents::{
    is_floor_log10_pow2, is_floor_log10_three_quarters_pow2, lemma_decimal_exponent_laws,
};
pub use estimates::{
    lemma_decimal_near, lemma_interval_choice_near, lemma_interval_estimate, lemma_yy_choice_near,
    lemma_yy_estimate, plain_factor, scaled_factor,
};
pub use exponents::{
    is_floor_log2_pow10, is_pow10_overestimate, lemma_table_laws, pos, pow2_of, scaled_le, scaled_lt,
};
pub use render::{lemma_scientific_exact, scientific, write_significand, BUFFER_SIZE};
pub use table::{lemma_exponent_ok, POW10_SIGNIFICANDS, DEC_EXP_MIN};
pub use traits::UInt;
pub use wide::{umul128, umul192_upper128, umul192_upper64_inexact_to_odd, uint128};

use vstd::prelude::*;

verus! {

/// The characters of an ASCII byte string.
pub open spec fn ascii_chars(bytes: Seq<u8>) -> Seq<char> {
    bytes.map_values(|b: u8| b as char)
}

/// Every byte of `bytes` is ASCII.
pub open spec fn is_ascii_bytes(bytes: Seq<u8>) -> bool {
    forall|i: int| 0 <= i < bytes.len() ==> bytes[i] < 128
}

/// `core::str::from_utf8` on the first `len` bytes of `bytes`. Its
/// documentation promises `Ok` with a string of the same bytes for valid
/// UTF-8, which ASCII bytes are, one character each: that is the contract.
#[verifier::external_body]
fn ascii_str(bytes: &[u8; BUFFER_SIZE], len: usize) -> (s: &str)
    requires
        len <= BUFFER_SIZE,
        is_ascii_bytes(bytes@.take(len as int)),
    ensures
        s@ == ascii_chars(bytes@.take(len as int)),
{
    match core::str::from_utf8(&bytes[..len]) {
        Ok(s) => s,
        Err(_) => "",
    }
}

/// Room for the rendering of one value.
pub struct Buffer {
    bytes: [u8; BUFFER_SIZE],
}

impl View for Buffer {
    type V = Seq<u8>;

    closed spec fn view(&self) -> Seq<u8> {
        self.bytes@
    }
}

impl Buffer {
    /// A buffer with every byte zero.
    pub fn new() -> (b: Self)
        ensures
            b@ == Seq::new(BUFFER_SIZE as nat, |i: int| 0u8),
    {
        let b = Buffer { bytes: [0u8; BUFFER_SIZE] };
        assert(b@ =~= Seq::new(BUFFER_SIZE as nat, |i: int| 0u8));
        b
    }

    /// Renders the binary64 value with bit pattern `bits` (`f64::to_bits`)
    /// as the decimal that the selection picks (see the crate documentation),
    /// in at most 24 ASCII characters.
    pub fn format(&mut self, bits: u64) -> (s: &str)
        ensures
            s@ == ascii_chars(rendering(bits)),
            is_ascii_bytes(rendering(bits)),
            s@.len() < BUFFER_SIZE,
    {
        let len = dtoa(&mut self.bytes, bits);
        ascii_str(&self.bytes, len)
    }
}

impl Default for Buffer {
    fn default() -> (b: Self)
        ensures
            b@ == Seq::new(BUFFER_SIZE as nat, |i: int| 0u8),
    {
        Buffer::new()
    }
}

} // verus!
