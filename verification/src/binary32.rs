//! IEEE-754 binary32 quantities, held by their bit pattern.
//!
//! Every thermal quantity of the domain (kWh, prices, pressures, percentages, scores) is a
//! single-precision float. The library carries such a value as its 32-bit pattern: it moves the
//! value around unchanged, and it compares values with the exact IEEE-754 ordering, which a few
//! integer facts describe completely:
//!
//! * bit 31 is the sign, the other 31 bits are the magnitude;
//! * a magnitude above `0x7F80_0000` is a NaN, `0x7F80_0000` is infinity, below it the value is
//!   finite;
//! * among non-NaN values of one sign, a larger magnitude pattern is a larger magnitude, and the
//!   two zeros are equal.
//!
//! Arithmetic (sums, products, quotients) is never performed here.

use vstd::prelude::*;

verus! {

/// Bit 31, the sign bit of a binary32 pattern.
pub const SIGN_BIT: u32 = 0x8000_0000;

/// The pattern of positive infinity; larger magnitudes are NaNs.
pub const INFINITY_BITS: u32 = 0x7F80_0000;

/// A single-precision float, held by its IEEE-754 bit pattern.
#[derive(Clone, Copy, Debug)]
pub struct Binary32(pub u32);

/// The magnitude bits (everything but the sign).
pub open spec fn magnitude(x: Binary32) -> int {
    (x.0 % 0x8000_0000) as int
}

/// The sign bit is set.
pub open spec fn sign_set(x: Binary32) -> bool {
    x.0 >= 0x8000_0000
}

/// The value is a NaN.
pub open spec fn nan(x: Binary32) -> bool {
    magnitude(x) > 0x7F80_0000
}

/// The value is neither infinite nor NaN.
pub open spec fn finite(x: Binary32) -> bool {
    magnitude(x) < 0x7F80_0000
}

/// The position of a non-NaN value on the extended real line: order-preserving, and both zeros
/// map to `0`.
pub open spec fn order_key(x: Binary32) -> int {
    if sign_set(x) {
        -magnitude(x)
    } else {
        magnitude(x)
    }
}

/// `a < b` in IEEE-754 (false whenever either side is NaN).
pub open spec fn below(a: Binary32, b: Binary32) -> bool {
    !nan(a) && !nan(b) && order_key(a) < order_key(b)
}

/// `a <= b` in IEEE-754 (false whenever either side is NaN).
pub open spec fn at_most(a: Binary32, b: Binary32) -> bool {
    !nan(a) && !nan(b) && order_key(a) <= order_key(b)
}

/// `a == b` in IEEE-754: the same real value (so `0.0 == -0.0`), never for a NaN.
pub open spec fn same_value(a: Binary32, b: Binary32) -> bool {
    !nan(a) && !nan(b) && order_key(a) == order_key(b)
}

/// Unary minus: the same pattern with the sign bit flipped.
pub open spec fn negated(x: Binary32) -> Binary32 {
    if sign_set(x) {
        Binary32((x.0 - 0x8000_0000) as u32)
    } else {
        Binary32((x.0 + 0x8000_0000) as u32)
    }
}

/// The value `+0.0`.
pub open spec fn positive_zero() -> Binary32 {
    Binary32(0)
}

impl Binary32 {
    /// The bit pattern.
    pub fn bits(self) -> (r: u32)
        ensures
            r == self.0,
    {
        self.0
    }

    /// `+0.0`.
    pub fn zero() -> (r: Binary32)
        ensures
            r == positive_zero(),
            order_key(r) == 0,
    {
        Binary32(0)
    }

    fn magnitude_bits(self) -> (r: u32)
        ensures
            r == magnitude(self),
    {
        if self.0 >= SIGN_BIT {
            self.0 - SIGN_BIT
        } else {
            self.0
        }
    }

    /// True for a NaN.
    pub fn is_nan(self) -> (r: bool)
        ensures
            r == nan(self),
    {
        self.magnitude_bits() > INFINITY_BITS
    }

    /// True when the value is neither infinite nor NaN.
    pub fn is_finite(self) -> (r: bool)
        ensures
            r == finite(self),
    {
        self.magnitude_bits() < INFINITY_BITS
    }

    /// `-self`.
    pub fn neg(self) -> (r: Binary32)
        ensures
            r == negated(self),
            nan(r) == nan(self),
            !nan(self) ==> order_key(r) == -order_key(self),
    {
        if self.0 >= SIGN_BIT {
            Binary32(self.0 - SIGN_BIT)
        } else {
            Binary32(self.0 + SIGN_BIT)
        }
    }

    /// `self < other`.
    pub fn lt(self, other: Binary32) -> (r: bool)
        ensures
            r == below(self, other),
    {
        if self.is_nan() || other.is_nan() {
            return false;
        }
        let a = self.magnitude_bits();
        let b = other.magnitude_bits();
        let a_neg = self.0 >= SIGN_BIT;
        let b_neg = other.0 >= SIGN_BIT;
        if a_neg && b_neg {
            b < a
        } else if a_neg {
            // -a < b unless both are zero
            a != 0 || b != 0
        } else if b_neg {
            false
        } else {
            a < b
        }
    }

    /// `self > other`.
    pub fn gt(self, other: Binary32) -> (r: bool)
        ensures
            r == below(other, self),
    {
        other.lt(self)
    }

    /// `self <= other`.
    pub fn le(self, other: Binary32) -> (r: bool)
        ensures
            r == at_most(self, other),
    {
        if self.is_nan() || other.is_nan() {
            return false;
        }
        !other.lt(self)
    }

    /// `self == other` in IEEE-754.
    pub fn same(self, other: Binary32) -> (r: bool)
        ensures
            r == same_value(self, other),
    {
        self.le(other) && other.le(self)
    }
}

impl PartialEq for Binary32 {
    fn eq(&self, other: &Binary32) -> (r: bool) {
        self.same(*other)
    }
}

impl vstd::std_specs::cmp::PartialEqSpecImpl for Binary32 {
    open spec fn obeys_eq_spec() -> bool {
        true
    }

    open spec fn eq_spec(&self, other: &Binary32) -> bool {
        same_value(*self, *other)
    }
}

} // verus!
