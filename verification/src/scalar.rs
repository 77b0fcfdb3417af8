//! Numeric values carried as IEEE 754 double-precision bit patterns.
//!
//! The engine's contracts and validation rules only ever classify a value
//! (is it NaN, is it finite, is it positive, does it lie in a range) or
//! compare magnitudes; all of that is decidable on the bit pattern alone.
//! Arithmetic on the values themselves is the numeric layer's business,
//! outside this crate.

use vstd::prelude::*;

verus! {

/// Sign bit of a 64-bit IEEE 754 value.
pub const SIGN_MASK: u64 = 0x8000_0000_0000_0000;
/// Exponent field of a 64-bit IEEE 754 value.
pub const EXP_MASK: u64 = 0x7FF0_0000_0000_0000;
/// Fraction (mantissa) field of a 64-bit IEEE 754 value.
pub const FRAC_MASK: u64 = 0x000F_FFFF_FFFF_FFFF;
/// Everything but the sign bit: the magnitude of the value.
pub const MAG_MASK: u64 = 0x7FFF_FFFF_FFFF_FFFF;

/// Bit pattern of the double 0.5.
pub const BITS_HALF: u64 = 0x3FE0_0000_0000_0000;
/// Bit pattern of the double 1.0.
pub const BITS_ONE: u64 = 0x3FF0_0000_0000_0000;
/// Bit pattern of the double 3.0.
pub const BITS_THREE: u64 = 0x4008_0000_0000_0000;

/// A numeric value held as the 64 bits of its IEEE 754 double-precision
/// representation. Callers that do arithmetic convert with `f64::to_bits`
/// and `f64::from_bits` at the boundary and hand the pattern back.
#[derive(Clone, Copy, Debug, PartialEq, Eq, Structural, Hash)]
pub struct Scalar {
    pub bits: u64,
}

/// The exponent field is all ones and the fraction is not zero: a NaN.
pub open spec fn spec_is_nan(b: u64) -> bool {
    b & EXP_MASK == EXP_MASK && b & FRAC_MASK != 0
}

/// The exponent field is all ones and the fraction is zero: an infinity.
pub open spec fn spec_is_infinite(b: u64) -> bool {
    b & EXP_MASK == EXP_MASK && b & FRAC_MASK == 0
}

/// Neither an infinity nor a NaN.
pub open spec fn spec_is_finite(b: u64) -> bool {
    b & EXP_MASK != EXP_MASK
}

/// The sign bit is set.
pub open spec fn spec_is_sign_negative(b: u64) -> bool {
    b & SIGN_MASK == SIGN_MASK
}

/// The bits with the sign cleared: the magnitude of the value.
pub open spec fn spec_magnitude(b: u64) -> u64 {
    b & MAG_MASK
}

/// The value is +0.0 or -0.0.
pub open spec fn spec_is_zero(b: u64) -> bool {
    spec_magnitude(b) == 0
}

/// The value compares strictly greater than zero under IEEE 754 ordering:
/// not a NaN, sign clear, and not a zero.
pub open spec fn spec_gt_zero(b: u64) -> bool {
    &&& !spec_is_nan(b)
    &&& !spec_is_sign_negative(b)
    &&& spec_magnitude(b) != 0
}

/// The value compares less than or equal to the positive finite constant
/// with bits `c` under IEEE 754 ordering: not a NaN, and either negative
/// (any negative value is below any positive constant) or, being
/// non-negative, its bits do not exceed `c` (for non-negative doubles the
/// IEEE order coincides with the unsigned order of the bit patterns).
pub open spec fn spec_le_pos_const(b: u64, c: u64) -> bool {
    &&& !spec_is_nan(b)
    &&& (spec_is_sign_negative(b) || b <= c)
}

/// The value lies in the open interval (-1.0, 0.5) under IEEE 754
/// ordering. A negative value is above -1.0 exactly when its magnitude is
/// below 1.0; a non-negative value is below 0.5 exactly when its bits are
/// below those of 0.5. NaN lies in no interval.
pub open spec fn spec_in_poisson_range(b: u64) -> bool {
    &&& !spec_is_nan(b)
    &&& (if spec_is_sign_negative(b) {
        spec_magnitude(b) < BITS_ONE
    } else {
        b < BITS_HALF
    })
}

impl Scalar {
    /// Wrap a bit pattern.
    pub fn new(bits: u64) -> (r: Scalar)
        ensures
            r.bits == bits,
    {
        Scalar { bits }
    }

    /// The value +0.0.
    pub fn zero() -> (r: Scalar)
        ensures
            r.bits == 0u64,
    {
        Scalar { bits: 0u64 }
    }

    /// Whether the value is a NaN.
    pub fn is_nan(&self) -> (r: bool)
        ensures
            r == spec_is_nan(self.bits),
    {
        self.bits & EXP_MASK == EXP_MASK && self.bits & FRAC_MASK != 0
    }

    /// Whether the value is an infinity.
    pub fn is_infinite(&self) -> (r: bool)
        ensures
            r == spec_is_infinite(self.bits),
    {
        self.bits & EXP_MASK == EXP_MASK && self.bits & FRAC_MASK == 0
    }

    /// Whether the value is finite (neither NaN nor infinite).
    pub fn is_finite(&self) -> (r: bool)
        ensures
            r == spec_is_finite(self.bits),
    {
        self.bits & EXP_MASK != EXP_MASK
    }

    /// Whether the sign bit is set.
    pub fn is_sign_negative(&self) -> (r: bool)
        ensures
            r == spec_is_sign_negative(self.bits),
    {
        self.bits & SIGN_MASK == SIGN_MASK
    }

    /// The bits with the sign cleared: the value's magnitude (absolute value).
    pub fn magnitude(&self) -> (r: u64)
        ensures
            r == spec_magnitude(self.bits),
    {
        self.bits & MAG_MASK
    }

    /// Whether the value is +0.0 or -0.0.
    pub fn is_zero(&self) -> (r: bool)
        ensures
            r == spec_is_zero(self.bits),
    {
        self.bits & MAG_MASK == 0
    }

    /// Whether the value compares strictly greater than zero.
    pub fn gt_zero(&self) -> (r: bool)
        ensures
            r == spec_gt_zero(self.bits),
    {
        !self.is_nan() && !self.is_sign_negative() && !self.is_zero()
    }

    /// Whether the value compares at most the positive finite constant
    /// whose bit pattern is `c`.
    pub fn le_pos_const(&self, c: u64) -> (r: bool)
        ensures
            r == spec_le_pos_const(self.bits, c),
    {
        !self.is_nan() && (self.is_sign_negative() || self.bits <= c)
    }

    /// Whether the value lies in the open interval (-1.0, 0.5), the
    /// admissible range of a Poisson ratio.
    pub fn in_poisson_range(&self) -> (r: bool)
        ensures
            r == spec_in_poisson_range(self.bits),
    {
        if self.is_nan() {
            false
        } else if self.is_sign_negative() {
            self.magnitude() < BITS_ONE
        } else {
            self.bits < BITS_HALF
        }
    }
}

} // verus!
