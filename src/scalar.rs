use vstd::prelude::*;

verus! {

/// Bit of the sign in an IEEE-754 binary64 word.
pub const SIGN_BIT: u64 = 0x8000_0000_0000_0000;

/// Magnitude of positive infinity: every exponent bit set, mantissa clear.
pub const INFINITY_MAGNITUDE: u64 = 0x7FF0_0000_0000_0000;

/// The word of `1.0`.
pub const ONE_BITS: u64 = 0x3FF0_0000_0000_0000;

/// A real number in IEEE-754 binary64, held as its 64-bit word.
///
/// The library never does arithmetic on these values: it orders, compares,
/// clamps and copies them. The encoding is sign-magnitude, and for the
/// values that are not NaN the order of the numbers is the order of
/// `rank`: the magnitude with the sign applied (both zeros rank 0).
#[derive(Clone, Copy, Debug, PartialEq, Eq, Structural)]
pub struct Scalar {
    pub bits: u64,
}

impl Scalar {
    pub open spec fn is_negative_spec(self) -> bool {
        self.bits >= SIGN_BIT
    }

    /// The word without its sign bit.
    pub open spec fn magnitude(self) -> int {
        if self.is_negative_spec() {
            self.bits - SIGN_BIT
        } else {
            self.bits as int
        }
    }

    pub open spec fn is_nan_spec(self) -> bool {
        self.magnitude() > INFINITY_MAGNITUDE
    }

    pub open spec fn is_finite_spec(self) -> bool {
        self.magnitude() < INFINITY_MAGNITUDE
    }

    /// Position of a non-NaN value on the real line (with both infinities).
    pub open spec fn rank(self) -> int {
        if self.is_negative_spec() {
            -self.magnitude()
        } else {
            self.magnitude()
        }
    }

    /// Rank of a value taken as a fitness to be minimised: any non-finite
    /// value (NaN and both infinities) counts as bad as positive infinity,
    /// so it is worse than every finite value and never strictly better
    /// than a best that has not been found yet.
    pub open spec fn fitness_rank(self) -> int {
        if self.is_finite_spec() {
            self.rank()
        } else {
            INFINITY_MAGNITUDE as int
        }
    }

    /// `self < other` as IEEE-754 compares: false where either is NaN.
    pub open spec fn lt_spec(self, other: Scalar) -> bool {
        !self.is_nan_spec() && !other.is_nan_spec() && self.rank() < other.rank()
    }

    /// What `f64::clamp` returns on `self`, `lower` and `upper`.
    pub open spec fn clamp_spec(self, lower: Scalar, upper: Scalar) -> Scalar {
        if self.is_nan_spec() {
            self
        } else if self.rank() < lower.rank() {
            lower
        } else if self.rank() > upper.rank() {
            upper
        } else {
            self
        }
    }

    pub fn from_bits(bits: u64) -> (r: Scalar)
        ensures
            r.bits == bits,
    {
        Scalar { bits }
    }

    pub fn to_bits(self) -> (r: u64)
        ensures
            r == self.bits,
    {
        self.bits
    }

    /// Positive zero.
    pub fn zero() -> (r: Scalar)
        ensures
            r.bits == 0,
            r.rank() == 0,
            r.is_finite_spec(),
    {
        Scalar { bits: 0 }
    }

    /// One.
    pub fn one() -> (r: Scalar)
        ensures
            r.bits == ONE_BITS,
            r.is_finite_spec(),
            r.rank() > 0,
    {
        Scalar { bits: ONE_BITS }
    }

    /// Positive infinity.
    pub fn infinity() -> (r: Scalar)
        ensures
            r.bits == INFINITY_MAGNITUDE,
            !r.is_nan_spec(),
            !r.is_finite_spec(),
            r.fitness_rank() == INFINITY_MAGNITUDE as int,
    {
        Scalar { bits: INFINITY_MAGNITUDE }
    }

    fn magnitude_of(&self) -> (r: u64)
        ensures
            r as int == self.magnitude(),
    {
        if self.bits >= SIGN_BIT {
            self.bits - SIGN_BIT
        } else {
            self.bits
        }
    }

    pub fn is_nan(&self) -> (r: bool)
        ensures
            r == self.is_nan_spec(),
    {
        self.magnitude_of() > INFINITY_MAGNITUDE
    }

    pub fn is_finite(&self) -> (r: bool)
        ensures
            r == self.is_finite_spec(),
    {
        self.magnitude_of() < INFINITY_MAGNITUDE
    }

    /// Compares two non-NaN values by rank.
    fn rank_less(&self, other: &Scalar) -> (r: bool)
        ensures
            r == (self.rank() < other.rank()),
    {
        let a = self.magnitude_of();
        let b = other.magnitude_of();
        let a_neg = self.bits >= SIGN_BIT;
        let b_neg = other.bits >= SIGN_BIT;
        if a_neg && b_neg {
            b < a
        } else if a_neg {
            !(a == 0 && b == 0)
        } else if b_neg {
            false
        } else {
            a < b
        }
    }

    /// `self < other` as IEEE-754 compares.
    pub fn less_than(&self, other: &Scalar) -> (r: bool)
        ensures
            r == self.lt_spec(*other),
    {
        !self.is_nan() && !other.is_nan() && self.rank_less(other)
    }

    /// Whether `self`, taken as a fitness to be minimised, is strictly
    /// better than `other`.
    pub fn better_than(&self, other: &Scalar) -> (r: bool)
        ensures
            r == (self.fitness_rank() < other.fitness_rank()),
    {
        if !self.is_finite() {
            false
        } else if !other.is_finite() {
            true
        } else {
            self.rank_less(other)
        }
    }

    /// The value projected into `[lower, upper]`, as `f64::clamp` does it:
    /// a NaN stays NaN, a value below `lower` becomes `lower`, one above
    /// `upper` becomes `upper`.
    pub fn clamp(self, lower: Scalar, upper: Scalar) -> (r: Scalar)
        requires
            !lower.is_nan_spec(),
            !upper.is_nan_spec(),
            lower.rank() <= upper.rank(),
        ensures
            r == self.clamp_spec(lower, upper),
    {
        if self.is_nan() {
            self
        } else if self.rank_less(&lower) {
            lower
        } else if upper.rank_less(&self) {
            upper
        } else {
            self
        }
    }
}

/// Clamping a value a second time with the same bounds changes nothing.
pub proof fn lemma_clamp_idempotent(x: Scalar, lower: Scalar, upper: Scalar)
    requires
        !lower.is_nan_spec(),
        !upper.is_nan_spec(),
        lower.rank() <= upper.rank(),
    ensures
        x.clamp_spec(lower, upper).clamp_spec(lower, upper) == x.clamp_spec(lower, upper),
{
}

} // verus!
