//! Single-precision numbers held by their IEEE 754 bit pattern.
//!
//! The camera state is a handful of binary32 numbers. This module gives
//! them a home the verifier can see into: a number is its 32 bits, and the
//! questions the rig asks of it (is it a number at all, is it zero, which of
//! two is smaller, where does it land between two limits) are answered from
//! those bits alone. Arithmetic is not offered; whoever holds the hardware
//! numbers adds and multiplies, and hands the bits of the outcome back.

use vstd::prelude::*;

verus! {

/// The bit that carries the sign.
pub const SIGN_BIT: u32 = 0x8000_0000;

/// The magnitude of an infinity. Larger magnitudes are not numbers.
pub const INFINITY_MAGNITUDE: u32 = 0x7f80_0000;

/// One binary32 number, as its bit pattern.
#[derive(Clone, Copy, Debug, PartialEq, Eq, Structural)]
pub struct Single {
    pub bits: u32,
}

impl Single {
    /// The bit pattern without its sign bit.
    pub open spec fn spec_magnitude(self) -> u32 {
        if self.bits >= SIGN_BIT {
            (self.bits - SIGN_BIT) as u32
        } else {
            self.bits
        }
    }

    /// The sign bit is set. True of negative zero and of some NaNs too.
    pub open spec fn spec_sign(self) -> bool {
        self.bits >= SIGN_BIT
    }

    /// The pattern encodes no number.
    pub open spec fn spec_is_nan(self) -> bool {
        self.spec_magnitude() > INFINITY_MAGNITUDE
    }

    /// The pattern is one of the two zeros.
    pub open spec fn spec_is_zero(self) -> bool {
        self.spec_magnitude() == 0
    }

    /// Position of a number on the number line, as an integer: patterns
    /// that are numbers compare as their ranks do, and the two zeros share
    /// rank 0. Says nothing useful of a NaN.
    pub open spec fn rank(self) -> int {
        if self.spec_sign() {
            -(self.spec_magnitude() as int)
        } else {
            self.spec_magnitude() as int
        }
    }

    /// Numeric `<`: false as soon as either side is a NaN.
    pub open spec fn spec_lt(self, other: Single) -> bool {
        !self.spec_is_nan() && !other.spec_is_nan() && self.rank() < other.rank()
    }

    /// Numeric `<=`: false as soon as either side is a NaN.
    pub open spec fn spec_le(self, other: Single) -> bool {
        !self.spec_is_nan() && !other.spec_is_nan() && self.rank() <= other.rank()
    }

    /// Numeric `==`: the two zeros are equal, a NaN equals nothing.
    pub open spec fn spec_same_number(self, other: Single) -> bool {
        !self.spec_is_nan() && !other.spec_is_nan() && self.rank() == other.rank()
    }

    /// `self` is a number that lies in the closed interval from `lo` to `hi`.
    pub open spec fn within(self, lo: Single, hi: Single) -> bool {
        lo.spec_le(self) && self.spec_le(hi)
    }

    /// `lo` and `hi` are numbers and `lo` does not exceed `hi`: what a pair
    /// of limits has to be for clamping between them to make sense.
    pub open spec fn bracket(lo: Single, hi: Single) -> bool {
        lo.spec_le(hi)
    }

    /// Saturation into `[lo, hi]`: a number below `lo` becomes `lo`, one
    /// above `hi` becomes `hi`, anything else, a NaN included, stays as it
    /// is, bit for bit.
    pub open spec fn spec_clamp(self, lo: Single, hi: Single) -> Single {
        if self.spec_lt(lo) {
            lo
        } else if hi.spec_lt(self) {
            hi
        } else {
            self
        }
    }

    /// The number with the opposite sign bit.
    pub open spec fn spec_negated(self) -> Single {
        if self.bits >= SIGN_BIT {
            Single { bits: (self.bits - SIGN_BIT) as u32 }
        } else {
            Single { bits: (self.bits + SIGN_BIT) as u32 }
        }
    }

    /// Wraps a bit pattern.
    pub fn from_bits(bits: u32) -> (s: Single)
        ensures
            s.bits == bits,
    {
        Single { bits }
    }

    /// The bit pattern.
    pub fn to_bits(self) -> (bits: u32)
        ensures
            bits == self.bits,
    {
        self.bits
    }

    /// The bit pattern without its sign bit.
    #[verifier::when_used_as_spec(spec_magnitude)]
    pub fn magnitude(self) -> (m: u32)
        ensures
            m == self.spec_magnitude(),
            m < SIGN_BIT,
    {
        if self.bits >= SIGN_BIT {
            self.bits - SIGN_BIT
        } else {
            self.bits
        }
    }

    /// Whether the sign bit is set.
    #[verifier::when_used_as_spec(spec_sign)]
    pub fn sign(self) -> (s: bool)
        ensures
            s == self.spec_sign(),
    {
        self.bits >= SIGN_BIT
    }

    /// Whether the pattern encodes no number.
    #[verifier::when_used_as_spec(spec_is_nan)]
    pub fn is_nan(self) -> (nan: bool)
        ensures
            nan == self.spec_is_nan(),
    {
        self.magnitude() > INFINITY_MAGNITUDE
    }

    /// Whether the pattern is positive or negative zero.
    #[verifier::when_used_as_spec(spec_is_zero)]
    pub fn is_zero(self) -> (zero: bool)
        ensures
            zero == self.spec_is_zero(),
    {
        self.magnitude() == 0
    }

    /// The rank as a machine integer.
    pub fn rank_value(self) -> (r: i64)
        ensures
            r == self.rank(),
            -(SIGN_BIT as int) < r < SIGN_BIT as int,
    {
        let m: i64 = self.magnitude() as i64;
        if self.sign() {
            -m
        } else {
            m
        }
    }

    /// Numeric `<`.
    #[verifier::when_used_as_spec(spec_lt)]
    pub fn lt(self, other: Single) -> (less: bool)
        ensures
            less == self.spec_lt(other),
    {
        !self.is_nan() && !other.is_nan() && self.rank_value() < other.rank_value()
    }

    /// Numeric `<=`.
    #[verifier::when_used_as_spec(spec_le)]
    pub fn le(self, other: Single) -> (at_most: bool)
        ensures
            at_most == self.spec_le(other),
    {
        !self.is_nan() && !other.is_nan() && self.rank_value() <= other.rank_value()
    }

    /// Numeric `==`.
    #[verifier::when_used_as_spec(spec_same_number)]
    pub fn same_number(self, other: Single) -> (same: bool)
        ensures
            same == self.spec_same_number(other),
    {
        !self.is_nan() && !other.is_nan() && self.rank_value() == other.rank_value()
    }

    /// The number with the opposite sign.
    #[verifier::when_used_as_spec(spec_negated)]
    pub fn negated(self) -> (n: Single)
        ensures
            n == self.spec_negated(),
            n.spec_magnitude() == self.spec_magnitude(),
            n.spec_sign() != self.spec_sign(),
            n.rank() == -self.rank(),
    {
        if self.bits >= SIGN_BIT {
            Single { bits: self.bits - SIGN_BIT }
        } else {
            Single { bits: self.bits + SIGN_BIT }
        }
    }

    /// Saturates `self` into `[lo, hi]`.
    ///
    /// The limits have to be numbers in order; between unordered limits
    /// there is nothing to saturate into.
    #[verifier::when_used_as_spec(spec_clamp)]
    pub fn clamp(self, lo: Single, hi: Single) -> (c: Single)
        requires
            Single::bracket(lo, hi),
        ensures
            c == self.spec_clamp(lo, hi),
            !self.spec_is_nan() ==> c.within(lo, hi),
            self.spec_is_nan() ==> c == self,
            self.within(lo, hi) ==> c == self,
    {
        if self.lt(lo) {
            lo
        } else if hi.lt(self) {
            hi
        } else {
            self
        }
    }
}

/// Whatever is clamped between proper limits is a NaN, left alone, or a
/// number inside the limits.
pub proof fn lemma_clamp_lands_within(x: Single, lo: Single, hi: Single)
    requires
        Single::bracket(lo, hi),
    ensures
        x.spec_is_nan() ==> x.spec_clamp(lo, hi) == x,
        !x.spec_is_nan() ==> x.spec_clamp(lo, hi).within(lo, hi),
{
}

/// Clamping what is already clamped changes nothing.
pub proof fn lemma_clamp_idempotent(x: Single, lo: Single, hi: Single)
    requires
        Single::bracket(lo, hi),
    ensures
        x.spec_clamp(lo, hi).spec_clamp(lo, hi) == x.spec_clamp(lo, hi),
{
}

/// Clamping keeps the order of numbers: of two numbers, the smaller one
/// never ends up above the larger one.
pub proof fn lemma_clamp_monotone(x: Single, y: Single, lo: Single, hi: Single)
    requires
        Single::bracket(lo, hi),
        x.spec_le(y),
    ensures
        x.spec_clamp(lo, hi).spec_le(y.spec_clamp(lo, hi)),
{
}

} // verus!
