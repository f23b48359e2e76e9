use vstd::prelude::*;

verus! {

/// Number of weight units in one virtual byte.
pub const WITNESS_SCALE_FACTOR: usize = 4;

/// Virtual bytes occupied by `wu` weight units: the quotient by four, rounded up.
pub open spec fn ceil_vbytes(wu: int) -> int {
    if wu % 4 == 0 {
        wu / 4
    } else {
        wu / 4 + 1
    }
}

/// The vbyte count is the least whole number of vbytes that holds `wu` weight
/// units: four times it reaches `wu`, and one vbyte fewer would not.
pub proof fn lemma_ceil_vbytes_bounds(wu: int)
    requires
        wu >= 0,
    ensures
        4 * ceil_vbytes(wu) >= wu,
        4 * (ceil_vbytes(wu) - 1) < wu,
        ceil_vbytes(wu) >= 0,
{
}

/// Types that can be used to measure weight units.
pub trait Vbytes: Sized {
    /// The amount of weight units that a value measures.
    spec fn weight_units(self) -> int;

    /// Convert weight units to virtual bytes, never undercounting the size.
    fn vbytes(self) -> (r: usize)
        ensures
            r as int == ceil_vbytes(self.weight_units()),
    ;
}

impl Vbytes for usize {
    open spec fn weight_units(self) -> int {
        self as int
    }

    fn vbytes(self) -> (r: usize) {
        let whole: usize = self / WITNESS_SCALE_FACTOR;
        if self % WITNESS_SCALE_FACTOR == 0 {
            whole
        } else {
            whole + 1
        }
    }
}

/// The sign bit of an IEEE-754 binary32 bit pattern.
pub open spec fn f32_sign(bits: u32) -> int {
    bits as int / 0x8000_0000
}

/// The biased exponent field of an IEEE-754 binary32 bit pattern.
pub open spec fn f32_exponent(bits: u32) -> int {
    (bits as int / 0x80_0000) % 0x100
}

/// Whether a binary32 value, given by its bit pattern, is an acceptable fee
/// rate: positive zero, or a normal number (neither zero, subnormal, infinite
/// nor NaN) with the sign bit clear.
pub open spec fn is_valid_fee_rate_bits(bits: u32) -> bool {
    ||| bits == 0
    ||| (f32_sign(bits) == 0 && 0 < f32_exponent(bits) < 0xff)
}

/// Decide whether the binary32 value with bit pattern `bits` may be stored as
/// a fee rate in satoshi per vbyte.
pub fn fee_rate_bits_valid(bits: u32) -> (r: bool)
    ensures
        r == is_valid_fee_rate_bits(bits),
{
    let sign: u32 = bits >> 31u32;
    let exponent: u32 = (bits >> 23u32) & 0xffu32;
    assert(sign as int == f32_sign(bits) && exponent as int == f32_exponent(bits)) by (bit_vector)
        requires
            sign == bits >> 31u32,
            exponent == (bits >> 23u32) & 0xffu32,
    ;
    bits == 0 || (sign == 0 && exponent != 0 && exponent != 0xff)
}

/// Positive zero is an acceptable fee rate, while every value with the sign bit
/// set (negative zero and all negative numbers) and every value whose exponent
/// field is all ones (both infinities and every NaN) is refused.
pub proof fn lemma_fee_rate_validity(bits: u32)
    ensures
        is_valid_fee_rate_bits(0),
        f32_sign(bits) == 1 ==> !is_valid_fee_rate_bits(bits),
        f32_exponent(bits) == 0xff ==> !is_valid_fee_rate_bits(bits),
{
}

} // verus!
