//! The unsigned integer types that hold a float's bit pattern.

use core::ops::{Add, BitAnd, BitOr, Div, Mul, Shl, Shr, Sub};

use vstd::prelude::*;

verus! {

/// An unsigned integer type as wide as a float's bit pattern.
pub trait UInt: Copy + From<u8> + From<bool> + Add<Output = Self> + Sub<Output = Self> + Mul<
    Output = Self,
> + Div<Output = Self> + BitAnd<Output = Self> + BitOr<Output = Self> + Shl<
    i32,
    Output = Self,
> + Shl<u32, Output = Self> + Shr<i32, Output = Self> + Shr<
    u32,
    Output = Self,
> + PartialOrd + Into<u64> + core::fmt::Display {
    /// `self - other`, wrapping around at the type's width.
    fn wrapping_sub(self, other: Self) -> Self;

    /// The low bits of `wide` that fit the type.
    fn truncate(wide: u64) -> Self;
}

impl UInt for u32 {
    fn wrapping_sub(self, other: Self) -> (r: Self)
        ensures
            r == (self - other) % 0x1_0000_0000,
    {
        self.wrapping_sub(other)
    }

    fn truncate(wide: u64) -> (r: Self)
        ensures
            r == wide % 0x1_0000_0000,
    {
        proof {
            assert(wide as u32 == wide % 0x1_0000_0000) by (bit_vector);
        }
        wide as u32
    }
}

impl UInt for u64 {
    fn wrapping_sub(self, other: Self) -> (r: Self)
        ensures
            r == (self - other) % 0x1_0000_0000_0000_0000,
    {
        self.wrapping_sub(other)
    }

    fn truncate(wide: u64) -> (r: Self)
        ensures
            r == wide,
    {
        wide
    }
}

} // verus!
