//! Single-precision numbers carried by their bit patterns.
//!
//! Positions and magnitudes enter and leave this crate as the 32 bits of an
//! IEEE-754 binary32 value. Nothing here does arithmetic on them; the one
//! operation offered is the ordering test, which the standard fixes on the
//! bit pattern alone.

use vstd::prelude::*;

verus! {

/// The sign bit of a binary32 pattern.
pub const SIGN_BIT: u32 = 0x8000_0000;

/// The pattern of positive infinity: every larger magnitude is a NaN.
pub const INFINITY_BITS: u32 = 0x7f80_0000;

/// A binary32 number, identified by its bit pattern.
///
/// Two scalars are `==` when their patterns are the same, so `-0` and `+0`
/// are different scalars and a NaN equals itself. Use [`Scalar::gt`] to
/// order them as numbers.
#[derive(Clone, Copy, Debug, PartialEq, Eq, Structural)]
pub struct Scalar {
    pub bits: u32,
}

impl Scalar {
    /// The pattern with the sign bit cleared.
    pub open spec fn magnitude(self) -> int {
        if self.bits >= SIGN_BIT {
            self.bits - SIGN_BIT
        } else {
            self.bits as int
        }
    }

    /// Whether the sign bit is set.
    pub open spec fn is_negative(self) -> bool {
        self.bits >= SIGN_BIT
    }

    /// Whether the pattern encodes no number.
    pub open spec fn is_nan(self) -> bool {
        self.magnitude() > INFINITY_BITS
    }

    /// An integer that orders patterns as IEEE-754 orders the numbers they
    /// encode: both zeros rank 0, and a larger number has a larger rank.
    pub open spec fn rank(self) -> int {
        if self.is_negative() {
            -self.magnitude()
        } else {
            self.magnitude()
        }
    }

    /// The IEEE-754 relation `self > other`: false whenever either side is a
    /// NaN, otherwise the order of the encoded numbers.
    pub open spec fn exceeds(self, other: Scalar) -> bool {
        &&& !self.is_nan()
        &&& !other.is_nan()
        &&& self.rank() > other.rank()
    }

    /// The scalar with the given pattern.
    pub fn from_bits(bits: u32) -> (s: Scalar)
        ensures
            s.bits == bits,
    {
        Scalar { bits }
    }

    /// Tests `self > other` as IEEE-754 defines it.
    pub fn gt(self, other: Scalar) -> (r: bool)
        ensures
            r == self.exceeds(other),
    {
        let a: u32 = if self.bits >= SIGN_BIT { self.bits - SIGN_BIT } else { self.bits };
        let b: u32 = if other.bits >= SIGN_BIT { other.bits - SIGN_BIT } else { other.bits };
        if a > INFINITY_BITS || b > INFINITY_BITS {
            return false;
        }
        let a_negative: bool = self.bits >= SIGN_BIT;
        let b_negative: bool = other.bits >= SIGN_BIT;
        if a_negative {
            // A negative number exceeds only a more negative one.
            b_negative && a < b
        } else if b_negative {
            // A non-negative number exceeds every negative one but -0 at +0.
            a > 0 || b > 0
        } else {
            a > b
        }
    }
}

} // verus!
