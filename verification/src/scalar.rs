//! Single-precision numbers held by their bit patterns.
//!
//! The host never computes with these values here: it stores them, compares
//! them, flips their sign and lays them out in memory for the kernel. All of
//! that is decided by the IEEE-754 binary32 bit pattern alone, so a number is
//! kept as the `u32` that encodes it.

use vstd::prelude::*;

verus! {

/// Bit pattern with only the sign bit set.
pub const SIGN_BIT: u32 = 0x8000_0000;

/// Magnitude of the infinities; every larger magnitude is a NaN.
pub const INFINITY_MAGNITUDE: u32 = 0x7F80_0000;

/// Bit pattern of positive zero.
pub const ZERO_BITS: u32 = 0;

/// Bit pattern of one.
pub const ONE_BITS: u32 = 0x3F80_0000;

/// A binary32 number, identified by its bit pattern.
#[derive(Clone, Copy, Debug, PartialEq, Eq, Structural)]
pub struct Scalar {
    pub bits: u32,
}

/// Two scalars: a point on the screen or in a texture.
#[derive(Clone, Copy, Debug, PartialEq, Eq, Structural)]
pub struct Vec2 {
    pub x: Scalar,
    pub y: Scalar,
}

/// Three scalars: a point or a direction in world space.
#[derive(Clone, Copy, Debug, PartialEq, Eq, Structural)]
pub struct Vec3 {
    pub x: Scalar,
    pub y: Scalar,
    pub z: Scalar,
}

impl Scalar {
    /// The bits below the sign bit.
    pub open spec fn magnitude(self) -> int {
        self.bits as int % (SIGN_BIT as int)
    }

    /// Whether the sign bit is set.
    pub open spec fn is_negative(self) -> bool {
        self.bits >= SIGN_BIT
    }

    /// Whether the pattern encodes no number.
    pub open spec fn is_nan(self) -> bool {
        self.magnitude() > INFINITY_MAGNITUDE
    }

    /// Position of the value on the number line, counted in representable
    /// steps from zero. Of two patterns that are not NaN, the one of lower
    /// rank encodes the smaller number, and equal ranks encode equal numbers
    /// (both zeros have rank 0).
    pub open spec fn rank(self) -> int {
        if self.is_negative() {
            -self.magnitude()
        } else {
            self.magnitude()
        }
    }

    /// `self < other` as numbers: false as soon as one side is NaN.
    pub open spec fn lt(self, other: Scalar) -> bool {
        !self.is_nan() && !other.is_nan() && self.rank() < other.rank()
    }

    /// The pattern with the sign bit flipped.
    pub open spec fn negated(self) -> Scalar {
        if self.is_negative() {
            Scalar { bits: (self.bits - SIGN_BIT) as u32 }
        } else {
            Scalar { bits: (self.bits + SIGN_BIT) as u32 }
        }
    }

    /// `self` held to `[min, max]`: a value below `min` becomes `min`, one
    /// above `max` becomes `max`, and anything else, NaN included, stays.
    pub open spec fn clamped(self, min: Scalar, max: Scalar) -> Scalar {
        if self.lt(min) {
            min
        } else if max.lt(self) {
            max
        } else {
            self
        }
    }

    /// Whether the value is a number no smaller than `min` and no larger
    /// than `max`.
    pub open spec fn within(self, min: Scalar, max: Scalar) -> bool {
        !self.is_nan() && min.rank() <= self.rank() <= max.rank()
    }

    pub fn from_bits(bits: u32) -> (s: Scalar)
        ensures
            s.bits == bits,
    {
        Scalar { bits }
    }

    pub fn to_bits(self) -> (bits: u32)
        ensures
            bits == self.bits,
    {
        self.bits
    }

    pub fn is_nan_value(self) -> (nan: bool)
        ensures
            nan == self.is_nan(),
    {
        self.bits % SIGN_BIT > INFINITY_MAGNITUDE
    }

    /// The rank as a machine integer.
    pub fn rank_value(self) -> (r: i64)
        ensures
            r == self.rank(),
    {
        let m: u32 = self.bits % SIGN_BIT;
        if self.bits >= SIGN_BIT {
            -(m as i64)
        } else {
            m as i64
        }
    }

    pub fn less_than(self, other: Scalar) -> (less: bool)
        ensures
            less == self.lt(other),
    {
        !self.is_nan_value() && !other.is_nan_value() && self.rank_value() < other.rank_value()
    }

    pub fn negate(self) -> (n: Scalar)
        ensures
            n == self.negated(),
    {
        if self.bits >= SIGN_BIT {
            Scalar { bits: self.bits - SIGN_BIT }
        } else {
            Scalar { bits: self.bits + SIGN_BIT }
        }
    }

    pub fn clamp(self, min: Scalar, max: Scalar) -> (c: Scalar)
        requires
            !min.is_nan(),
            !max.is_nan(),
            min.rank() <= max.rank(),
        ensures
            c == self.clamped(min, max),
    {
        if self.less_than(min) {
            min
        } else if max.less_than(self) {
            max
        } else {
            self
        }
    }

    pub fn is_within(self, min: Scalar, max: Scalar) -> (inside: bool)
        ensures
            inside == self.within(min, max),
    {
        !self.is_nan_value() && min.rank_value() <= self.rank_value() && self.rank_value()
            <= max.rank_value()
    }
}

impl Vec2 {
    pub fn from_bits(x: u32, y: u32) -> (v: Vec2)
        ensures
            v.x.bits == x,
            v.y.bits == y,
    {
        Vec2 { x: Scalar { bits: x }, y: Scalar { bits: y } }
    }
}

impl Vec3 {
    pub fn new(x: Scalar, y: Scalar, z: Scalar) -> (v: Vec3)
        ensures
            v == (Vec3 { x, y, z }),
    {
        Vec3 { x, y, z }
    }

    pub fn from_bits(x: u32, y: u32, z: u32) -> (v: Vec3)
        ensures
            v.x.bits == x,
            v.y.bits == y,
            v.z.bits == z,
    {
        Vec3 { x: Scalar { bits: x }, y: Scalar { bits: y }, z: Scalar { bits: z } }
    }

    /// The components in order, as the words that go into a buffer.
    pub open spec fn words(self) -> Seq<u32> {
        seq![self.x.bits, self.y.bits, self.z.bits]
    }
}

/// Negating flips the sign and keeps the magnitude, so the rank changes sign;
/// negating twice gives the pattern back.
pub proof fn lemma_negated(s: Scalar)
    ensures
        s.negated().rank() == -s.rank(),
        s.negated().is_nan() == s.is_nan(),
        s.negated().negated() == s,
{
}

/// A clamped number lies within the bounds.
pub proof fn lemma_clamped_within(s: Scalar, min: Scalar, max: Scalar)
    requires
        !s.is_nan(),
        !min.is_nan(),
        !max.is_nan(),
        min.rank() <= max.rank(),
    ensures
        s.clamped(min, max).within(min, max),
        s.within(min, max) ==> s.clamped(min, max) == s,
{
}

} // verus!
