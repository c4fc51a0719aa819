use vstd::prelude::*;

verus! {

/// The bit pattern of positive infinity; every pattern above it up to the
/// sign bit is a NaN.
pub const POSITIVE_INFINITY_BITS: u32 = 0x7f80_0000;

/// The sign bit.
pub const SIGN_BIT: u32 = 0x8000_0000;

/// Everything but the sign bit: exponent and mantissa.
pub const MAGNITUDE_MASK: u32 = 0x7fff_ffff;

/// A single-precision audio value (a sample, a gain, a velocity) held by its
/// IEEE-754 bit pattern, so that it is carried bit for bit through the logic.
#[derive(Clone, Copy, Debug, PartialEq, Eq, Structural)]
pub struct Level {
    pub bits: u32,
}

impl Level {
    /// Positive zero.
    pub fn zero() -> (r: Level)
        ensures
            r.bits == 0,
    {
        Level { bits: 0 }
    }

    /// The value is greater than zero: the sign bit is clear and the bits are
    /// neither zero nor a NaN (positive infinity counts as positive).
    pub open spec fn positive_spec(self) -> bool {
        0 < self.bits <= POSITIVE_INFINITY_BITS
    }

    pub fn is_positive(&self) -> (r: bool)
        ensures
            r == self.positive_spec(),
    {
        0 < self.bits && self.bits <= POSITIVE_INFINITY_BITS
    }

    /// Whether the bits are a NaN (all exponent bits set, mantissa not zero).
    pub open spec fn nan_spec(self) -> bool {
        self.bits & MAGNITUDE_MASK > POSITIVE_INFINITY_BITS
    }

    /// Where the value lies on the number line: the magnitude bits grow with
    /// the magnitude, and the sign bit negates. Both zeros lie at 0.
    pub open spec fn rank(self) -> int {
        if self.bits & SIGN_BIT != 0 {
            -((self.bits & MAGNITUDE_MASK) as int)
        } else {
            self.bits as int
        }
    }

    /// Floating-point `self > other`: false when either is a NaN.
    pub open spec fn greater_spec(self, other: Level) -> bool {
        !self.nan_spec() && !other.nan_spec() && self.rank() > other.rank()
    }

    pub fn is_nan(&self) -> (r: bool)
        ensures
            r == self.nan_spec(),
    {
        self.bits & MAGNITUDE_MASK > POSITIVE_INFINITY_BITS
    }

    pub fn greater_than(&self, other: &Level) -> (r: bool)
        ensures
            r == self.greater_spec(*other),
    {
        if self.is_nan() || other.is_nan() {
            return false;
        }
        let x = self.bits;
        let y = other.bits;
        let a_neg = x & SIGN_BIT != 0;
        let b_neg = y & SIGN_BIT != 0;
        let a = x & MAGNITUDE_MASK;
        let b = y & MAGNITUDE_MASK;
        proof {
            assert(x & 0x8000_0000u32 == 0 ==> x == x & 0x7fff_ffffu32) by (bit_vector);
            assert(y & 0x8000_0000u32 == 0 ==> y == y & 0x7fff_ffffu32) by (bit_vector);
        }
        match (a_neg, b_neg) {
            (false, false) => a > b,
            (false, true) => a > 0 || b > 0,
            (true, false) => false,
            (true, true) => a < b,
        }
    }

    pub fn from_bits(bits: u32) -> (r: Level)
        ensures
            r.bits == bits,
    {
        Level { bits }
    }
}

} // verus!
