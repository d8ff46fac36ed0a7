# zmij

Decimal rendering of IEEE 754 binary64 values, after the Schubfach and yy
algorithms, written in Verus.

What is proved: the output is exactly the decimal that the algorithm
selects, written in scientific notation in at most 24 ASCII characters; the
wide products, digit routines and writers are exact; the table of powers of
ten is accurate to one unit and the exponent formulas are floors of
logarithms; and the selected decimal lies in the value's rounding interval
widened by a quarter unit of its last digit below and one unit above
(`estimates.rs`). What is not proved: that it lies in the interval itself,
and is the shortest and nearest decimal that does, so that it reads back as
the same value. The algorithm is designed for that, and the tests check it
on sample values.

`Buffer::format` takes a value's bit pattern (`f64::to_bits`) and returns
`NaN`, `inf`, `0` or scientific notation such as `6.62607015e-34`, with a
`-` for negative values.

Layout of `src/`:

- `wide.rs`: 128- and 192-bit products, with rounding to odd.
- `digits.rs`: decimal digits, division by 100, digit pairs and runs of
  eight digits packed in a `u64`, and the count of significant digits.
- `render.rs`: writing a decimal in scientific notation.
- `table.rs`: the 128-bit significands of the powers of ten, and the
  exponent-by-exponent check of what the conversion needs of them.
- `exponents.rs`: the table read as powers of ten: each entry's binary
  exponent is `floor(log2(10^-d))`, and the entry overestimates `10^-d`
  scaled to 128 bits by at most one unit.
- `decimal_exponents.rs`: the decimal exponent formula is
  `floor(log10(2^e))`, or `floor(log10(3/4 * 2^e))` for the irregular
  significand, for every binary exponent of a binary64 value.
- `estimates.rs`: how close the fixed-point estimates, and the decimal
  chosen from them, come to the exact values.
- `dtoa.rs`: decoding a bit pattern and choosing the decimal.
- `traits.rs`: the unsigned integer types of a float's width.

`app/` holds the entry points that take `f32` and `f64` themselves.
