//! Real numbers as the engine sees them: IEEE 754 binary64 values, each held by
//! its 64-bit pattern.
//!
//! The engine never does arithmetic on them. It classifies them and compares them,
//! and both can be read off the pattern: the top bit is the sign, the other 63 bits
//! are the magnitude, the magnitudes of the finite values and of infinity grow with
//! the pattern, and every magnitude above that of infinity is a NaN.

use vstd::prelude::*;

verus! {

/// The sign bit of a pattern.
pub const SIGN_BIT: u64 = 0x8000_0000_0000_0000;

/// The magnitude of infinity. Larger magnitudes are NaNs.
pub const INFINITY_BITS: u64 = 0x7ff0_0000_0000_0000;

/// A binary64 value. `==` compares patterns, so it tells the two zeros apart and
/// finds a NaN equal to itself; the order of the values is `below` and `at_most`.
#[derive(Clone, Copy, Debug, PartialEq, Eq, Structural)]
pub struct Real {
    pub bits: u64,
}

impl Real {
    /// The pattern without its sign bit.
    pub open spec fn magnitude(self) -> int {
        if self.bits >= SIGN_BIT {
            self.bits - SIGN_BIT
        } else {
            self.bits as int
        }
    }

    /// The sign bit is set. This holds of `-0` and of half of the NaNs too.
    pub open spec fn negative(self) -> bool {
        self.bits >= SIGN_BIT
    }

    /// The value is a NaN.
    pub open spec fn nan(self) -> bool {
        self.magnitude() > INFINITY_BITS
    }

    /// The value is positive or negative infinity.
    pub open spec fn infinite(self) -> bool {
        self.magnitude() == INFINITY_BITS
    }

    /// Where a value that is no NaN stands among the others: values are ordered as
    /// their ranks are, and the two zeros share rank 0.
    pub open spec fn rank(self) -> int {
        if self.negative() {
            -self.magnitude()
        } else {
            self.magnitude()
        }
    }

    /// `self < other`: false as soon as one of the two is a NaN.
    pub open spec fn below(self, other: Real) -> bool {
        !self.nan() && !other.nan() && self.rank() < other.rank()
    }

    /// `self <= other`: false as soon as one of the two is a NaN.
    pub open spec fn at_most(self, other: Real) -> bool {
        !self.nan() && !other.nan() && self.rank() <= other.rank()
    }

    /// `self > other`.
    pub open spec fn above(self, other: Real) -> bool {
        other.below(self)
    }

    /// `self > 0`.
    pub open spec fn positive(self) -> bool {
        self.above(Real::zero())
    }

    /// The value with its sign bit cleared.
    pub open spec fn absolute(self) -> Real {
        Real { bits: self.magnitude() as u64 }
    }

    /// Positive zero.
    pub open spec fn zero() -> Real {
        Real { bits: 0 }
    }

    /// The value with this pattern.
    pub fn from_bits(bits: u64) -> (r: Real)
        ensures
            r.bits == bits,
    {
        Real { bits }
    }

    /// The pattern of the value.
    pub fn to_bits(self) -> (bits: u64)
        ensures
            bits == self.bits,
    {
        self.bits
    }

    /// Positive zero, where the axis is met.
    pub fn origin() -> (r: Real)
        ensures
            r == Real::zero(),
    {
        Real { bits: 0 }
    }

    /// The absolute value.
    pub fn abs(self) -> (r: Real)
        ensures
            r == self.absolute(),
    {
        if self.bits >= SIGN_BIT {
            Real { bits: self.bits - SIGN_BIT }
        } else {
            self
        }
    }

    pub fn is_sign_negative(self) -> (r: bool)
        ensures
            r == self.negative(),
    {
        self.bits >= SIGN_BIT
    }

    pub fn is_nan(self) -> (r: bool)
        ensures
            r == self.nan(),
    {
        self.abs().bits > INFINITY_BITS
    }

    pub fn is_infinite(self) -> (r: bool)
        ensures
            r == self.infinite(),
    {
        self.abs().bits == INFINITY_BITS
    }

    /// `self < other`.
    pub fn lt(self, other: Real) -> (r: bool)
        ensures
            r == self.below(other),
    {
        if self.is_nan() || other.is_nan() {
            false
        } else {
            let mine: u64 = self.abs().bits;
            let theirs: u64 = other.abs().bits;
            if self.is_sign_negative() {
                if other.is_sign_negative() {
                    theirs < mine
                } else {
                    mine > 0 || theirs > 0
                }
            } else {
                !other.is_sign_negative() && mine < theirs
            }
        }
    }

    /// `self <= other`.
    pub fn le(self, other: Real) -> (r: bool)
        ensures
            r == self.at_most(other),
    {
        if self.is_nan() || other.is_nan() {
            false
        } else {
            !other.lt(self)
        }
    }

    /// `self > other`.
    pub fn gt(self, other: Real) -> (r: bool)
        ensures
            r == self.above(other),
    {
        other.lt(self)
    }
}

/// `below` is the strict order of the values, with the NaNs left out of it: nothing
/// is below itself, no two values are below each other, what is below a value is
/// below all that is above it, and of two values that are no NaNs one is below the
/// other unless they stand at the same place, in which case both are at most the
/// other.
pub proof fn below_is_a_strict_order(x: Real, y: Real, z: Real)
    ensures
        !x.below(x),
        x.below(y) ==> !y.below(x),
        x.below(y) && y.below(z) ==> x.below(z),
        !x.nan() && !y.nan() ==> x.below(y) || y.below(x) || x.rank() == y.rank(),
        x.at_most(y) <==> x.below(y) || (!x.nan() && !y.nan() && x.rank() == y.rank()),
        x.nan() ==> !x.below(y) && !y.below(x) && !x.at_most(y) && !y.at_most(x),
{
}

/// Clearing the sign bit gives the absolute value: it is not below zero, it keeps
/// the value of what is not below zero, and it mirrors the place of the rest.
pub proof fn absolute_clears_the_sign(x: Real)
    ensures
        !x.absolute().negative(),
        x.absolute().nan() == x.nan(),
        x.absolute().infinite() == x.infinite(),
        x.absolute().rank() == if x.rank() < 0 {
            -x.rank()
        } else {
            x.rank()
        },
{
}

} // verus!
