use vstd::prelude::*;

use crate::error::ConfigError;
use crate::scalar::{Scalar, lemma_clamp_idempotent};

verus! {

/// The box `[lower, upper]` applied to every coordinate.
#[derive(Clone, Copy, Debug, PartialEq, Eq, Structural)]
pub struct Bounds {
    pub lower: Scalar,
    pub upper: Scalar,
}

impl Bounds {
    /// Neither end is NaN and `lower < upper`.
    pub open spec fn valid(self) -> bool {
        self.lower.lt_spec(self.upper)
    }

    pub fn new(lower: Scalar, upper: Scalar) -> (r: Result<Bounds, ConfigError>)
        ensures
            lower.lt_spec(upper) ==> r == Ok::<Bounds, ConfigError>(Bounds { lower, upper }),
            !lower.lt_spec(upper) ==> r == Err::<Bounds, ConfigError>(ConfigError::InvalidBounds),
    {
        if lower.less_than(&upper) {
            Ok(Bounds { lower, upper })
        } else {
            Err(ConfigError::InvalidBounds)
        }
    }
}

/// Every coordinate of `s` clamped into `b`.
pub open spec fn clamp_seq(s: Seq<Scalar>, b: Bounds) -> Seq<Scalar> {
    Seq::new(s.len(), |i: int| s[i].clamp_spec(b.lower, b.upper))
}

/// A point of the search space: a fixed number of coordinates.
#[derive(Clone, Debug)]
pub struct VectorN {
    pub coordinates: Vec<Scalar>,
}

impl View for VectorN {
    type V = Seq<Scalar>;

    open spec fn view(&self) -> Seq<Scalar> {
        self.coordinates@
    }
}

impl VectorN {
    /// The vector of `coordinates`, which must number `dimensions`.
    pub fn new(coordinates: Vec<Scalar>, dimensions: usize) -> (r: Result<VectorN, ConfigError>)
        ensures
            coordinates@.len() == dimensions ==> r is Ok && r->Ok_0@ == coordinates@,
            coordinates@.len() != dimensions ==> r == Err::<VectorN, ConfigError>(ConfigError::DimensionMismatch),
    {
        if coordinates.len() == dimensions {
            Ok(VectorN { coordinates })
        } else {
            Err(ConfigError::DimensionMismatch)
        }
    }

    /// The origin of a space of `dimensions` coordinates (all positive zero).
    pub fn zero(dimensions: usize) -> (r: VectorN)
        ensures
            r@.len() == dimensions,
            forall|i: int| 0 <= i < dimensions ==> r@[i] == (Scalar { bits: 0 }),
    {
        let mut coordinates: Vec<Scalar> = Vec::new();
        let mut i: usize = 0;
        while i < dimensions
            invariant
                i <= dimensions,
                coordinates@.len() == i,
                forall|j: int| 0 <= j < i ==> coordinates@[j] == (Scalar { bits: 0 }),
            decreases dimensions - i,
        {
            coordinates.push(Scalar::zero());
            i = i + 1;
        }
        VectorN { coordinates }
    }

    pub fn len(&self) -> (r: usize)
        ensures
            r == self@.len(),
    {
        self.coordinates.len()
    }

    /// A copy of the vector.
    pub fn duplicate(&self) -> (r: VectorN)
        ensures
            r@ == self@,
    {
        let mut coordinates: Vec<Scalar> = Vec::new();
        let mut i: usize = 0;
        while i < self.coordinates.len()
            invariant
                i <= self@.len(),
                coordinates@ == self@.subrange(0, i as int),
            decreases self@.len() - i,
        {
            coordinates.push(self.coordinates[i]);
            i = i + 1;
            assert(coordinates@ =~= self@.subrange(0, i as int));
        }
        assert(coordinates@ =~= self@);
        VectorN { coordinates }
    }

    /// Projects every coordinate into the box, in place; the length is kept.
    pub fn clamp(&mut self, bounds: Bounds)
        requires
            bounds.valid(),
        ensures
            final(self)@ == clamp_seq(old(self)@, bounds),
    {
        let n = self.coordinates.len();
        let mut i: usize = 0;
        while i < n
            invariant
                bounds.valid(),
                n == old(self)@.len(),
                i <= n,
                self@.len() == n,
                forall|j: int| 0 <= j < i ==> self@[j] == old(self)@[j].clamp_spec(bounds.lower, bounds.upper),
                forall|j: int| i <= j < n ==> self@[j] == old(self)@[j],
            decreases n - i,
        {
            let c = self.coordinates[i].clamp(bounds.lower, bounds.upper);
            self.coordinates.set(i, c);
            i = i + 1;
        }
        assert(self@ =~= clamp_seq(old(self)@, bounds));
    }
}

/// Clamping a vector twice into the same box equals clamping it once.
pub proof fn lemma_vector_clamp_idempotent(s: Seq<Scalar>, b: Bounds)
    requires
        b.valid(),
    ensures
        clamp_seq(clamp_seq(s, b), b) == clamp_seq(s, b),
{
    assert forall|i: int| 0 <= i < s.len() implies clamp_seq(clamp_seq(s, b), b)[i] == clamp_seq(s, b)[i] by {
        lemma_clamp_idempotent(s[i], b.lower, b.upper);
    }
    assert(clamp_seq(clamp_seq(s, b), b) =~= clamp_seq(s, b));
}

/// A point of the plane.
#[derive(Clone, Copy, Debug, PartialEq, Eq, Structural)]
pub struct Vector2D {
    pub x: Scalar,
    pub y: Scalar,
}

impl Vector2D {
    pub fn new(x: Scalar, y: Scalar) -> (r: Vector2D)
        ensures
            r == (Vector2D { x, y }),
    {
        Vector2D { x, y }
    }

    /// Clamps `x` into `x_bounds` and `y` into `y_bounds`, each given as
    /// `(lower, upper)`.
    pub fn clamp(&mut self, x_bounds: (Scalar, Scalar), y_bounds: (Scalar, Scalar))
        requires
            !x_bounds.0.is_nan_spec() && !x_bounds.1.is_nan_spec(),
            x_bounds.0.rank() <= x_bounds.1.rank(),
            !y_bounds.0.is_nan_spec() && !y_bounds.1.is_nan_spec(),
            y_bounds.0.rank() <= y_bounds.1.rank(),
        ensures
            final(self).x == old(self).x.clamp_spec(x_bounds.0, x_bounds.1),
            final(self).y == old(self).y.clamp_spec(y_bounds.0, y_bounds.1),
    {
        self.x = self.x.clamp(x_bounds.0, x_bounds.1);
        self.y = self.y.clamp(y_bounds.0, y_bounds.1);
    }
}

} // verus!
