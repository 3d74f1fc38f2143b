//! Binary64 numbers as bit patterns, with their numeric order.

use vstd::prelude::*;

verus! {

/// Two to the power 63: the weight of the sign bit.
pub const SIGN_BIT: u64 = 0x8000_0000_0000_0000;

/// The magnitude of positive infinity; every larger magnitude is a NaN.
pub const INFINITY_MAGNITUDE: u64 = 0x7FF0_0000_0000_0000;

/// An IEEE 754 binary64 number, held as its 64 bits.
///
/// Equality of two `Scalar`s is equality of their bits. The numeric order is
/// given by [`Scalar::spec_lt`] and [`Scalar::spec_le`].
#[derive(Clone, Copy, Debug, PartialEq, Eq, Structural)]
pub struct Scalar {
    pub bits: u64,
}

impl Scalar {
    /// The bits without the sign.
    pub open spec fn magnitude(self) -> int {
        self.bits as int % SIGN_BIT as int
    }

    /// Whether the sign bit is set.
    pub open spec fn is_negative(self) -> bool {
        self.bits >= SIGN_BIT
    }

    /// Whether the pattern is not a number.
    pub open spec fn is_nan(self) -> bool {
        self.magnitude() > INFINITY_MAGNITUDE
    }

    /// An integer that orders the numbers as their values do: the magnitude,
    /// negated under a sign bit. Both zeros have rank 0.
    pub open spec fn rank(self) -> int {
        if self.is_negative() {
            -self.magnitude()
        } else {
            self.magnitude()
        }
    }

    /// `self < other` as numbers: false as soon as either is a NaN.
    pub open spec fn spec_lt(self, other: Scalar) -> bool {
        !self.is_nan() && !other.is_nan() && self.rank() < other.rank()
    }

    /// `self <= other` as numbers: false as soon as either is a NaN.
    pub open spec fn spec_le(self, other: Scalar) -> bool {
        !self.is_nan() && !other.is_nan() && self.rank() <= other.rank()
    }

    /// An integer that orders every pattern: the numbers as their values
    /// do, and every NaN behind all of them.
    pub open spec fn sort_rank(self) -> int {
        if self.is_nan() {
            INFINITY_MAGNITUDE + 1
        } else {
            self.rank()
        }
    }

    /// Whether `self` sorts no later than `other`.
    pub open spec fn spec_sorts_le(self, other: Scalar) -> bool {
        self.sort_rank() <= other.sort_rank()
    }

    /// Whether `self` is a number of a magnitude no larger than `bound`,
    /// which is the pattern of a number that is not negative.
    pub open spec fn spec_within(self, bound: u64) -> bool {
        !self.is_nan() && self.magnitude() <= bound
    }

    /// The larger of `self` and `floor`, and `floor` where `self` is a NaN.
    pub open spec fn spec_floor_at(self, floor: Scalar) -> Scalar {
        if self.is_nan() || self.spec_lt(floor) {
            floor
        } else {
            self
        }
    }

    pub fn from_bits(bits: u64) -> (s: Scalar)
        ensures
            s.bits == bits,
    {
        Scalar { bits }
    }

    pub fn to_bits(self) -> (bits: u64)
        ensures
            bits == self.bits,
    {
        self.bits
    }

    pub fn nan(self) -> (r: bool)
        ensures
            r == self.is_nan(),
    {
        self.bits % SIGN_BIT > INFINITY_MAGNITUDE
    }

    pub fn lt(self, other: Scalar) -> (r: bool)
        ensures
            r == self.spec_lt(other),
    {
        if self.nan() || other.nan() {
            return false;
        }
        let a: u64 = self.bits % SIGN_BIT;
        let b: u64 = other.bits % SIGN_BIT;
        if self.bits >= SIGN_BIT {
            if other.bits >= SIGN_BIT {
                b < a
            } else {
                a > 0 || b > 0
            }
        } else {
            if other.bits >= SIGN_BIT {
                false
            } else {
                a < b
            }
        }
    }

    pub fn le(self, other: Scalar) -> (r: bool)
        ensures
            r == self.spec_le(other),
    {
        if self.nan() || other.nan() {
            return false;
        }
        let a: u64 = self.bits % SIGN_BIT;
        let b: u64 = other.bits % SIGN_BIT;
        if self.bits >= SIGN_BIT {
            if other.bits >= SIGN_BIT {
                b <= a
            } else {
                true
            }
        } else {
            if other.bits >= SIGN_BIT {
                a == 0 && b == 0
            } else {
                a <= b
            }
        }
    }

    pub fn sorts_le(self, other: Scalar) -> (r: bool)
        ensures
            r == self.spec_sorts_le(other),
    {
        if other.nan() {
            true
        } else if self.nan() {
            false
        } else {
            self.le(other)
        }
    }

    pub fn within(self, bound: u64) -> (r: bool)
        ensures
            r == self.spec_within(bound),
    {
        !self.nan() && self.bits % SIGN_BIT <= bound
    }

    pub fn floor_at(self, floor: Scalar) -> (r: Scalar)
        ensures
            r == self.spec_floor_at(floor),
    {
        if self.nan() || self.lt(floor) {
            floor
        } else {
            self
        }
    }
}

/// The order is strict: nothing is below itself, and of two numbers at most
/// one is below the other.
pub proof fn lemma_lt_strict(a: Scalar, b: Scalar)
    ensures
        !a.spec_lt(a),
        !(a.spec_lt(b) && b.spec_lt(a)),
{
}

/// Two numbers, neither a NaN, are comparable: exactly one of `a < b` and
/// `b <= a` holds.
pub proof fn lemma_lt_le_complement(a: Scalar, b: Scalar)
    requires
        !a.is_nan(),
        !b.is_nan(),
    ensures
        a.spec_lt(b) <==> !b.spec_le(a),
{
}

/// Both orders are transitive.
pub proof fn lemma_order_transitive(a: Scalar, b: Scalar, c: Scalar)
    ensures
        a.spec_lt(b) && b.spec_lt(c) ==> a.spec_lt(c),
        a.spec_le(b) && b.spec_le(c) ==> a.spec_le(c),
{
}

/// The floor holds: what `floor_at` returns is never below the floor.
pub proof fn lemma_floor_at_holds(value: Scalar, floor: Scalar)
    requires
        !floor.is_nan(),
    ensures
        floor.spec_le(value.spec_floor_at(floor)),
        !value.spec_floor_at(floor).is_nan(),
{
}

/// Sorting agrees with the numbers: of two that are no NaN, one sorts no
/// later than the other exactly when it is no larger. And sorting leaves
/// nothing out: of any two patterns one sorts no later than the other.
pub proof fn lemma_sorting_is_numeric(a: Scalar, b: Scalar)
    ensures
        !a.is_nan() && !b.is_nan() ==> (a.spec_sorts_le(b) <==> a.spec_le(b)),
        a.spec_sorts_le(b) || b.spec_sorts_le(a),
{
}

/// A number is within a bound exactly when it lies between the bound and
/// the bound negated.
pub proof fn lemma_within_is_an_interval(value: Scalar, bound: u64)
    requires
        bound <= INFINITY_MAGNITUDE,
    ensures
        value.spec_within(bound) <==> (Scalar { bits: (bound + SIGN_BIT) as u64 }).spec_le(value)
            && value.spec_le(Scalar { bits: bound }),
{
}

} // verus!
