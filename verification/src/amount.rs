//! Amounts of money.

use vstd::prelude::*;

verus! {

/// The sign bit of a single-precision bit pattern.
pub open spec fn sign_bit(bits: u32) -> bool {
    bits & 0x8000_0000 != 0
}

/// The eight exponent bits of a single-precision bit pattern.
pub open spec fn exponent(bits: u32) -> u32 {
    (bits >> 23) & 0xff
}

/// The twenty-three fraction bits of a single-precision bit pattern.
pub open spec fn fraction(bits: u32) -> u32 {
    bits & 0x007f_ffff
}

/// The pattern stands for a number: neither an infinity nor a NaN.
pub open spec fn is_finite(bits: u32) -> bool {
    exponent(bits) != 0xff
}

/// The pattern stands for zero, of either sign.
pub open spec fn is_zero(bits: u32) -> bool {
    exponent(bits) == 0 && fraction(bits) == 0
}

/// The pattern stands for a finite number that is not below zero.
pub open spec fn denotes_amount(bits: u32) -> bool {
    is_finite(bits) && (!sign_bit(bits) || is_zero(bits))
}

/// A finite amount of money that is not negative, held as the bit pattern
/// of an IEEE 754 single-precision number.
#[derive(Clone, Copy, Debug, PartialEq, Eq, Structural)]
pub struct Amount {
    bits: u32,
}

impl Amount {
    #[verifier::type_invariant]
    pub closed spec fn inv(self) -> bool {
        denotes_amount(self.bits)
    }

    /// The bit pattern of the amount.
    pub closed spec fn bits(self) -> u32 {
        self.bits
    }

    /// The amount with the given bit pattern, if the pattern stands for a
    /// finite number that is not negative.
    pub fn from_bits(bits: u32) -> (r: Option<Amount>)
        ensures
            r is Some <==> denotes_amount(bits),
            r matches Some(a) ==> a.bits() == bits && a.inv(),
    {
        assert(denotes_amount(bits) <==> (bits < 0x7f80_0000 || bits == 0x8000_0000))
            by (bit_vector);
        if bits < 0x7f80_0000 || bits == 0x8000_0000 {
            Some(Amount { bits })
        } else {
            None
        }
    }

    /// The bit pattern of the amount.
    pub fn to_bits(&self) -> (r: u32)
        ensures
            r == self.bits(),
            denotes_amount(r),
    {
        proof {
            use_type_invariant(self);
        }
        self.bits
    }
}

} // verus!
