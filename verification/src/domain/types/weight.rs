use vstd::prelude::*;

verus! {

/// A weight, held as the bit pattern of an IEEE 754 single-precision
/// number: one sign bit, eight exponent bits and twenty-three fraction
/// bits, from the most significant bit down.
#[derive(Clone, Copy, Debug, PartialEq, Eq, Structural)]
pub struct Weight {
    pub bits: u32,
}

impl Weight {
    /// The sign bit is set.
    pub open spec fn sign_set(self) -> bool {
        self.bits & 0x8000_0000u32 != 0
    }

    /// The eight exponent bits, as a number.
    pub open spec fn exponent(self) -> u32 {
        (self.bits >> 23u32) & 0xffu32
    }

    /// The twenty-three fraction bits, as a number.
    pub open spec fn fraction(self) -> u32 {
        self.bits & 0x7f_ffffu32
    }

    /// The pattern stands for no number.
    pub open spec fn is_nan(self) -> bool {
        self.exponent() == 0xff && self.fraction() != 0
    }

    /// The pattern stands for zero, of either sign.
    pub open spec fn is_zero(self) -> bool {
        self.exponent() == 0 && self.fraction() == 0
    }

    /// The weight compares greater than zero: it is a number, it is not
    /// zero, and its sign bit is clear.
    pub open spec fn is_positive(self) -> bool {
        !self.is_nan() && !self.is_zero() && !self.sign_set()
    }

    /// The weight whose bit pattern is `bits`.
    pub fn from_bits(bits: u32) -> (w: Weight)
        ensures
            w.bits == bits,
    {
        Weight { bits }
    }

    /// The bit pattern of the weight.
    pub fn to_bits(self) -> (bits: u32)
        ensures
            bits == self.bits,
    {
        self.bits
    }

    /// Positive zero, the weight that stands in for a missing one.
    pub fn zero() -> (w: Weight)
        ensures
            w.bits == 0,
            w.is_zero(),
            !w.sign_set(),
    {
        assert((0u32 >> 23u32) & 0xffu32 == 0 && 0u32 & 0x7f_ffffu32 == 0 && 0u32 & 0x8000_0000u32
            == 0) by (bit_vector);
        Weight { bits: 0 }
    }

    /// Decides whether the weight is greater than zero. A pattern that
    /// stands for no number is not.
    pub fn is_greater_than_zero(self) -> (r: bool)
        ensures
            r == self.is_positive(),
    {
        let b: u32 = self.bits;
        assert((1u32 <= b && b <= 0x7f80_0000u32) <==> (!(((b >> 23u32) & 0xffu32) == 0xff && (b
            & 0x7f_ffffu32) != 0) && !(((b >> 23u32) & 0xffu32) == 0 && (b & 0x7f_ffffu32) == 0)
            && !(b & 0x8000_0000u32 != 0))) by (bit_vector);
        1 <= b && b <= 0x7f80_0000
    }
}

} // verus!
