//! Single-precision numbers of IEEE 754, held by their bit patterns.

use vstd::prelude::*;

verus! {

/// The sign bit of a single-precision bit pattern.
pub const SIGN_BIT: u32 = 0x8000_0000;

/// The bit pattern of positive infinity. A pattern whose other 31 bits are
/// above it is not a number.
pub const INFINITY_BITS: u32 = 0x7f80_0000;

/// The bit pattern of the number one.
pub const ONE_BITS: u32 = 0x3f80_0000;

/// A single-precision number of IEEE 754, held by its bit pattern: one sign
/// bit, eight bits of exponent, twenty-three bits of fraction.
///
/// Every pattern is a value. `==` compares as the numbers do: no pattern that
/// is not a number equals anything, itself included, and the two zeros are
/// equal.
#[derive(Clone, Copy, Debug)]
pub struct Single {
    pub bits: u32,
}

impl Single {
    /// The pattern without its sign bit.
    pub open spec fn magnitude(self) -> int {
        if self.bits >= SIGN_BIT {
            self.bits - SIGN_BIT
        } else {
            self.bits as int
        }
    }

    /// Whether the sign bit is set.
    pub open spec fn is_sign_negative(self) -> bool {
        self.bits >= SIGN_BIT
    }

    /// Whether the pattern is not a number.
    pub open spec fn is_nan_spec(self) -> bool {
        self.magnitude() > INFINITY_BITS
    }

    /// Where a number stands among the numbers: of two patterns that are
    /// numbers, the one with the greater rank is the greater number, and two
    /// of one rank are equal numbers. Both zeros have rank 0.
    pub open spec fn rank(self) -> int {
        if self.is_sign_negative() {
            -self.magnitude()
        } else {
            self.magnitude()
        }
    }

    /// Equality of numbers: both are numbers, and of one rank.
    pub open spec fn same_number(self, other: Single) -> bool {
        &&& !self.is_nan_spec()
        &&& !other.is_nan_spec()
        &&& self.rank() == other.rank()
    }

    /// The greater of two numbers. Where one of the two is not a number, the
    /// other; of two equal numbers, the first.
    pub open spec fn max_spec(self, other: Single) -> Single {
        if self.is_nan_spec() {
            other
        } else if other.is_nan_spec() {
            self
        } else if self.rank() >= other.rank() {
            self
        } else {
            other
        }
    }

    /// The value with the given bit pattern.
    pub fn from_bits(bits: u32) -> (r: Single)
        ensures
            r.bits == bits,
    {
        Single { bits }
    }

    /// The bit pattern of the value.
    pub fn to_bits(self) -> (bits: u32)
        ensures
            bits == self.bits,
    {
        self.bits
    }

    /// Positive zero.
    pub open spec fn zero_spec() -> Single {
        Single { bits: 0 }
    }

    /// The number one.
    pub open spec fn one_spec() -> Single {
        Single { bits: ONE_BITS }
    }

    /// Positive zero.
    #[verifier::when_used_as_spec(zero_spec)]
    pub fn zero() -> (r: Single)
        ensures
            r == Single::zero_spec(),
    {
        Single { bits: 0 }
    }

    /// The number one.
    #[verifier::when_used_as_spec(one_spec)]
    pub fn one() -> (r: Single)
        ensures
            r == Single::one_spec(),
    {
        Single { bits: ONE_BITS }
    }

    /// Whether the value is not a number.
    #[verifier::when_used_as_spec(is_nan_spec)]
    pub fn is_nan(self) -> (r: bool)
        ensures
            r == self.is_nan_spec(),
    {
        let magnitude: u32 = if self.bits >= SIGN_BIT {
            self.bits - SIGN_BIT
        } else {
            self.bits
        };
        magnitude > INFINITY_BITS
    }

    /// Whether the first of two numbers is at least the second.
    fn ranks_at_least(self, other: Single) -> (r: bool)
        ensures
            r == (self.rank() >= other.rank()),
    {
        let a: u32 = if self.bits >= SIGN_BIT {
            self.bits - SIGN_BIT
        } else {
            self.bits
        };
        let b: u32 = if other.bits >= SIGN_BIT {
            other.bits - SIGN_BIT
        } else {
            other.bits
        };
        if self.bits >= SIGN_BIT {
            if other.bits >= SIGN_BIT {
                a <= b
            } else {
                a == 0 && b == 0
            }
        } else {
            if other.bits >= SIGN_BIT {
                true
            } else {
                a >= b
            }
        }
    }

    /// The greater of two numbers. Where one of the two is not a number, the
    /// other is returned; of two equal numbers, `self`.
    #[verifier::when_used_as_spec(max_spec)]
    pub fn max(self, other: Single) -> (r: Single)
        ensures
            r == self.max_spec(other),
    {
        if self.is_nan() {
            other
        } else if other.is_nan() {
            self
        } else if self.ranks_at_least(other) {
            self
        } else {
            other
        }
    }
}

impl PartialEq for Single {
    fn eq(&self, other: &Single) -> (r: bool) {
        !self.is_nan() && !other.is_nan() && self.ranks_at_least(*other)
            && other.ranks_at_least(*self)
    }
}

impl vstd::std_specs::cmp::PartialEqSpecImpl for Single {
    open spec fn obeys_eq_spec() -> bool {
        true
    }

    open spec fn eq_spec(&self, other: &Single) -> bool {
        self.same_number(*other)
    }
}

/// Equality of numbers holds of every number and itself, does not depend on
/// the order of the two, and carries over from one pair to the next. Two equal
/// numbers have one pattern, unless they are the two zeros.
pub proof fn lemma_same_number(a: Single, b: Single, c: Single)
    ensures
        a.same_number(a) == !a.is_nan_spec(),
        a.same_number(b) == b.same_number(a),
        a.same_number(b) && b.same_number(c) ==> a.same_number(c),
        a.same_number(b) <==> {
            &&& !a.is_nan_spec()
            &&& !b.is_nan_spec()
            &&& (a.bits == b.bits || (a.magnitude() == 0 && b.magnitude() == 0))
        },
{
}

/// The greater of two values is one of the two. Where both are numbers it is
/// no less than either; where just one is, it is that one; and it is not a
/// number only where neither is.
pub proof fn lemma_max(a: Single, b: Single)
    ensures
        a.max_spec(b) == a || a.max_spec(b) == b,
        !a.is_nan_spec() && !b.is_nan_spec() ==> {
            &&& a.max_spec(b).rank() >= a.rank()
            &&& a.max_spec(b).rank() >= b.rank()
        },
        a.is_nan_spec() ==> a.max_spec(b) == b,
        !a.is_nan_spec() && b.is_nan_spec() ==> a.max_spec(b) == a,
        a.max_spec(b).is_nan_spec() <==> a.is_nan_spec() && b.is_nan_spec(),
        !a.is_nan_spec() && !b.is_nan_spec() ==> a.max_spec(b).same_number(b.max_spec(a)),
{
}

} // verus!
