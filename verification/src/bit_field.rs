//! Bit-field specifiers: the width of a packed field and the integer type
//! through which it is read and written.

use vstd::arithmetic::power2::pow2;
use vstd::bits::lemma_u64_pow2_no_overflow;
use vstd::bits::lemma_u64_shl_is_mul;
use vstd::prelude::*;

verus! {

/// Describes one field of a packed structure.
pub trait BitFieldSpecifier {
    /// Width of the field in bits.
    const FIELD_WIDTH: u8;

    /// The type through which the field is read and written.
    type DefaultFieldType;

    /// Converts the raw bits of a field to its value.
    fn from_u64(val: u64) -> Self::DefaultFieldType;

    /// Converts the value of a field to its raw bits.
    fn into_u64(val: Self::DefaultFieldType) -> u64;
}

/// The largest number that fits in `width` bits, capped at 64 bits.
pub open spec fn max_of_width(width: u8) -> int {
    if width < 64 {
        pow2(width as nat) - 1
    } else {
        u64::MAX as int
    }
}

/// The largest raw value that a field described by `T` can hold.
pub fn max<T: BitFieldSpecifier>() -> (m: u64)
    ensures
        m == max_of_width(T::FIELD_WIDTH),
{
    if T::FIELD_WIDTH < 64 {
        let width: u64 = T::FIELD_WIDTH as u64;
        proof {
            lemma_u64_pow2_no_overflow(width as nat);
            lemma_u64_shl_is_mul(1, width);
        }
        (1u64 << width) - 1
    } else {
        u64::MAX
    }
}

/// What `bool` reads from raw bits: true unless they are all zero.
pub open spec fn bool_from_bits(val: u64) -> bool {
    val > 0
}

/// The raw bits of a `bool`: one for true, zero for false.
pub open spec fn bool_into_bits(val: bool) -> u64 {
    if val {
        1
    } else {
        0
    }
}

/// A `bool` is a field one bit wide.
impl BitFieldSpecifier for bool {
    const FIELD_WIDTH: u8 = 1;

    type DefaultFieldType = bool;

    fn from_u64(val: u64) -> (b: bool)
        ensures
            b == bool_from_bits(val),
    {
        val > 0
    }

    fn into_u64(val: bool) -> (bits: u64)
        ensures
            bits == bool_into_bits(val),
    {
        if val {
            1
        } else {
            0
        }
    }
}

/// Reading back the bits written for a `bool` gives the same `bool`, and the
/// bits fit the field's width.
pub proof fn lemma_bool_round_trip(val: bool)
    ensures
        bool_from_bits(bool_into_bits(val)) == val,
        bool_into_bits(val) <= max_of_width(1),
{
    vstd::arithmetic::power2::lemma2_to64();
}

/// Marks a byte array type whose length stands for a total field width that is
/// a whole number of bytes.
pub trait TotalSizeIsMultipleOfEightBits {

}

/// Only the remainder zero is a whole number of bytes.
impl TotalSizeIsMultipleOfEightBits for [u8; 0] {

}

/// Exists only for types that are marked as a whole number of bytes.
pub struct Check<T: TotalSizeIsMultipleOfEightBits> {
    marker: std::marker::PhantomData<T>,
}

} // verus!
