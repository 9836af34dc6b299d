//! Single-precision numbers held by their bit pattern.
//!
//! Scores, confidences and costs travel through the pipeline as the 32 bits
//! of their binary encoding: one sign bit, eight exponent bits, twenty-three
//! fraction bits. Everything the pipeline has to decide about such a number
//! (is it a number at all, does it lie between zero and one, which of two is
//! larger) can be read off the bits with integer arithmetic.

use vstd::prelude::*;

verus! {

/// The bit that carries the sign.
pub const SIGN_BIT: u32 = 0x8000_0000;

/// The encoding of positive infinity; a larger magnitude is not a number.
pub const INFINITY_BITS: u32 = 0x7f80_0000;

/// The encoding of one.
pub const ONE_BITS: u32 = 0x3f80_0000;

/// The encoding with the sign removed.
pub open spec fn magnitude(bits: u32) -> int {
    if bits >= SIGN_BIT {
        bits - SIGN_BIT
    } else {
        bits as int
    }
}

/// Whether the encoding stands for no number.
pub open spec fn is_nan_bits(bits: u32) -> bool {
    magnitude(bits) > INFINITY_BITS
}

/// An integer that orders the encodings as the numbers they stand for are
/// ordered: for two encodings of numbers, the first is less than the second
/// exactly when its rank is smaller, and both zeros have rank zero.
pub open spec fn rank(bits: u32) -> int {
    if bits >= SIGN_BIT {
        -magnitude(bits)
    } else {
        magnitude(bits)
    }
}

/// Whether the encoding stands for a number from zero to one, both included.
pub open spec fn in_unit_interval(bits: u32) -> bool {
    0 <= rank(bits) <= ONE_BITS
}

/// The nearest encoding within the unit interval: what is not a number, or
/// below zero, becomes zero, and what is above one becomes one.
pub open spec fn clamp_to_unit(bits: u32) -> u32 {
    if is_nan_bits(bits) || rank(bits) < 0 {
        0
    } else if rank(bits) > ONE_BITS {
        ONE_BITS
    } else {
        bits
    }
}

/// A single-precision number, held by its bit pattern.
#[derive(Clone, Copy, Debug, PartialEq, Eq, Structural)]
pub struct Single {
    pub bits: u32,
}

impl Single {
    /// The number whose encoding is `bits`.
    pub fn from_bits(bits: u32) -> (s: Single)
        ensures
            s.bits == bits,
    {
        Single { bits }
    }

    /// The encoding of the number.
    pub fn to_bits(&self) -> (bits: u32)
        ensures
            bits == self.bits,
    {
        self.bits
    }

    pub open spec fn is_nan(&self) -> bool {
        is_nan_bits(self.bits)
    }

    pub open spec fn rank(&self) -> int {
        rank(self.bits)
    }

    pub open spec fn in_unit_interval(&self) -> bool {
        in_unit_interval(self.bits)
    }

    /// Numeric `<=`: false as soon as either side is not a number.
    pub open spec fn le(&self, other: &Single) -> bool {
        !self.is_nan() && !other.is_nan() && self.rank() <= other.rank()
    }

    /// Numeric `<`: false as soon as either side is not a number.
    pub open spec fn lt(&self, other: &Single) -> bool {
        !self.is_nan() && !other.is_nan() && self.rank() < other.rank()
    }

    fn magnitude_of(&self) -> (m: u32)
        ensures
            m == magnitude(self.bits),
    {
        if self.bits >= SIGN_BIT {
            self.bits - SIGN_BIT
        } else {
            self.bits
        }
    }

    fn rank_of(&self) -> (r: i64)
        ensures
            r == rank(self.bits),
    {
        let m: i64 = self.magnitude_of() as i64;
        if self.bits >= SIGN_BIT {
            -m
        } else {
            m
        }
    }

    /// Whether the encoding stands for no number.
    pub fn is_not_a_number(&self) -> (b: bool)
        ensures
            b == self.is_nan(),
    {
        self.magnitude_of() > INFINITY_BITS
    }

    /// Whether the number lies between zero and one, both included.
    pub fn is_in_unit_interval(&self) -> (b: bool)
        ensures
            b == self.in_unit_interval(),
    {
        let r: i64 = self.rank_of();
        0 <= r && r <= ONE_BITS as i64
    }

    /// Numeric `<=`.
    pub fn is_le(&self, other: &Single) -> (b: bool)
        ensures
            b == self.le(other),
    {
        !self.is_not_a_number() && !other.is_not_a_number() && self.rank_of() <= other.rank_of()
    }

    /// Numeric `<`.
    pub fn is_lt(&self, other: &Single) -> (b: bool)
        ensures
            b == self.lt(other),
    {
        !self.is_not_a_number() && !other.is_not_a_number() && self.rank_of() < other.rank_of()
    }

    /// The number moved into the unit interval.
    pub fn clamped_to_unit(&self) -> (s: Single)
        ensures
            s.bits == clamp_to_unit(self.bits),
            s.in_unit_interval(),
    {
        if self.is_not_a_number() || self.rank_of() < 0 {
            Single { bits: 0 }
        } else if self.rank_of() > ONE_BITS as i64 {
            Single { bits: ONE_BITS }
        } else {
            Single { bits: self.bits }
        }
    }
}

} // verus!
