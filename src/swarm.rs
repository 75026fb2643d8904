use vstd::prelude::*;

use crate::de::{Coefficients, MetaConfig};
use crate::error::ConfigError;
use crate::scalar::{Scalar, INFINITY_MAGNITUDE};
use crate::vector::{Bounds, VectorN, clamp_seq};

verus! {

/// `n` coordinates of positive zero.
pub open spec fn zero_seq(n: nat) -> Seq<Scalar> {
    Seq::new(n, |i: int| Scalar { bits: 0 })
}

/// The best value before anything has been evaluated: positive infinity.
pub open spec fn unseen() -> Scalar {
    Scalar { bits: INFINITY_MAGNITUDE }
}

/// Scans the first `n` of `values` for the best fitness, starting from
/// `start`. A value takes over only when it is strictly better, so among
/// equal values the first one wins. The index is that of the value that
/// ended up best, or `None` where `start` was never beaten.
pub open spec fn scan_best(values: Seq<Scalar>, start: Scalar, n: nat) -> (Scalar, Option<int>)
    decreases n,
{
    if n == 0 {
        (start, None)
    } else {
        let prev = scan_best(values, start, (n - 1) as nat);
        if values[n - 1].fitness_rank() < prev.0.fitness_rank() {
            (values[n - 1], Some(n - 1))
        } else {
            prev
        }
    }
}

/// `scan_best` over all of `values`.
pub open spec fn best_of(values: Seq<Scalar>, start: Scalar) -> (Scalar, Option<int>) {
    scan_best(values, start, values.len())
}

/// The position that goes with a scan's choice.
pub open spec fn position_of(choice: Option<int>, positions: Seq<Seq<Scalar>>, fallback: Seq<Scalar>) -> Seq<Scalar> {
    match choice {
        Some(i) => positions[i],
        None => fallback,
    }
}

/// The coordinate sequences of a list of vectors.
pub open spec fn views(v: Seq<VectorN>) -> Seq<Seq<Scalar>> {
    Seq::new(v.len(), |i: int| v[i]@)
}

/// One swarm member.
#[derive(Clone, Debug)]
pub struct Particle {
    pub current_speed: VectorN,
    pub coordinates: VectorN,
    /// Best position this particle has visited.
    pub best_found_solution: VectorN,
    pub best_found_solution_value: Scalar,
    /// `(lower, upper)` box of the swarm.
    pub bounds: Bounds,
    pub social_coefficient: Scalar,
    pub cognitive_coefficient: Scalar,
    pub inertia_coefficient: Scalar,
}

impl Particle {
    pub open spec fn coefficients_spec(self) -> Coefficients {
        Coefficients {
            social: self.social_coefficient,
            cognitive: self.cognitive_coefficient,
            inertia: self.inertia_coefficient,
        }
    }

    /// Same velocity and position.
    pub open spec fn same_motion(self, other: Particle) -> bool {
        self.current_speed@ == other.current_speed@ && self.coordinates@ == other.coordinates@
    }

    /// Same personal best.
    pub open spec fn same_memory(self, other: Particle) -> bool {
        self.best_found_solution@ == other.best_found_solution@
            && self.best_found_solution_value == other.best_found_solution_value
    }

    /// Same box and coefficients.
    pub open spec fn same_setup(self, other: Particle) -> bool {
        self.bounds == other.bounds && self.coefficients_spec() == other.coefficients_spec()
    }

    /// `self` is `old` after its current position was evaluated to `value`:
    /// the personal best moves there only if `value` is strictly better.
    pub open spec fn updated_from(self, old: Particle, value: Scalar) -> bool {
        &&& self.same_motion(old)
        &&& self.same_setup(old)
        &&& if value.fitness_rank() < old.best_found_solution_value.fitness_rank() {
            self.best_found_solution@ == old.coordinates@ && self.best_found_solution_value == value
        } else {
            self.same_memory(old)
        }
    }

    /// `self` starts at `position`, at rest, with that position as its best.
    pub open spec fn fresh_at(self, position: Seq<Scalar>, value: Scalar) -> bool {
        &&& self.coordinates@ == position
        &&& self.best_found_solution@ == position
        &&& self.best_found_solution_value == value
        &&& self.current_speed@ == zero_seq(position.len())
    }
}

/// What the PSO step computed for one particle: its new velocity and the
/// position it reaches before being clamped into the box.
#[derive(Clone, Debug)]
pub struct Motion {
    pub velocity: VectorN,
    pub position: VectorN,
}

/// The state of one optimisation run.
#[derive(Clone, Debug)]
pub struct WorldState {
    pub particles: Vec<Particle>,
    pub best_solution: VectorN,
    pub best_solution_value: Scalar,
    pub bounds: Bounds,
    pub dimensions: usize,
    pub social_coefficient: Scalar,
    pub cognitive_coefficient: Scalar,
    pub inertia_coefficient: Scalar,
    pub meta: MetaConfig,
}

/// `positions` and `values` describe `count` particles in `dimensions` dimensions.
pub open spec fn samples_fit(positions: Seq<VectorN>, values: Seq<Scalar>, count: nat, dimensions: nat) -> bool {
    &&& positions.len() == count
    &&& values.len() == count
    &&& forall|i: int| 0 <= i < count ==> (#[trigger] positions[i])@.len() == dimensions
}

impl WorldState {
    pub open spec fn coefficients_spec(self) -> Coefficients {
        Coefficients {
            social: self.social_coefficient,
            cognitive: self.cognitive_coefficient,
            inertia: self.inertia_coefficient,
        }
    }

    pub open spec fn particle_ok(self, p: Particle) -> bool {
        &&& p.current_speed@.len() == self.dimensions
        &&& p.coordinates@.len() == self.dimensions
        &&& p.best_found_solution@.len() == self.dimensions
        &&& p.bounds == self.bounds
        &&& p.coefficients_spec() == self.coefficients_spec()
    }

    /// The box is valid, there is at least one particle, every vector has
    /// the swarm's dimension, and every particle shares the swarm's box and
    /// coefficients.
    pub open spec fn wf(self) -> bool {
        &&& self.bounds.valid()
        &&& self.particles@.len() > 0
        &&& self.best_solution@.len() == self.dimensions
        &&& forall|i: int| 0 <= i < self.particles@.len() ==> self.particle_ok(#[trigger] self.particles@[i])
    }

    /// The particles' current positions.
    pub open spec fn positions(self) -> Seq<Seq<Scalar>> {
        Seq::new(self.particles@.len(), |i: int| self.particles@[i].coordinates@)
    }

    /// Every particle starts afresh at its sample, and the global best is
    /// the best of the samples' values alone.
    pub open spec fn seeded_from(self, positions: Seq<Seq<Scalar>>, values: Seq<Scalar>) -> bool {
        &&& self.particles@.len() == positions.len()
        &&& forall|i: int| 0 <= i < positions.len() ==> (#[trigger] self.particles@[i]).fresh_at(positions[i], values[i])
        &&& self.best_solution_value == best_of(values, unseen()).0
        &&& self.best_solution@ == position_of(best_of(values, unseen()).1, positions, zero_seq(self.dimensions as nat))
    }

    /// Same configuration: box, dimension, coefficients and DE parameters.
    pub open spec fn same_config(self, other: WorldState) -> bool {
        &&& self.bounds == other.bounds
        &&& self.dimensions == other.dimensions
        &&& self.coefficients_spec() == other.coefficients_spec()
        &&& self.meta == other.meta
    }

    /// Same global best.
    pub open spec fn same_best(self, other: WorldState) -> bool {
        self.best_solution@ == other.best_solution@ && self.best_solution_value == other.best_solution_value
    }

    /// Builds the particles from their initial positions and the objective's
    /// values there, and takes the best of them as the global best.
    fn seed(&mut self, positions: &Vec<VectorN>, values: &Vec<Scalar>)
        requires
            old(self).bounds.valid(),
            positions@.len() > 0,
            samples_fit(positions@, values@, positions@.len(), old(self).dimensions as nat),
        ensures
            final(self).wf(),
            final(self).same_config(*old(self)),
            final(self).seeded_from(views(positions@), values@),
    {
        let dims = self.dimensions;
        let ghost ps = views(positions@);
        let mut particles: Vec<Particle> = Vec::new();
        let mut best = Scalar::infinity();
        let mut best_position = VectorN::zero(dims);
        let mut i: usize = 0;
        while i < positions.len()
            invariant
                i <= positions@.len(),
                ps == views(positions@),
                dims == self.dimensions,
                self.bounds.valid(),
                samples_fit(positions@, values@, positions@.len(), dims as nat),
                particles@.len() == i,
                forall|j: int| 0 <= j < i ==> self.particle_ok(#[trigger] particles@[j]),
                forall|j: int| 0 <= j < i ==> (#[trigger] particles@[j]).fresh_at(ps[j], values@[j]),
                best == scan_best(values@, unseen(), i as nat).0,
                best_position@ == position_of(scan_best(values@, unseen(), i as nat).1, ps, zero_seq(dims as nat)),
                best_position@.len() == dims,
            decreases positions@.len() - i,
        {
            let value = values[i];
            let p = Particle {
                current_speed: VectorN::zero(dims),
                coordinates: positions[i].duplicate(),
                best_found_solution: positions[i].duplicate(),
                best_found_solution_value: value,
                bounds: self.bounds,
                social_coefficient: self.social_coefficient,
                cognitive_coefficient: self.cognitive_coefficient,
                inertia_coefficient: self.inertia_coefficient,
            };
            assert(p.current_speed@ =~= zero_seq(dims as nat));
            particles.push(p);
            if value.better_than(&best) {
                best = value;
                best_position = positions[i].duplicate();
            }
            i = i + 1;
        }
        self.particles = particles;
        self.best_solution = best_position;
        self.best_solution_value = best;
    }

    /// A swarm of `particle_count` particles in `dimensions` dimensions,
    /// started at `positions`, where the objective has `values`. The global
    /// best is the best of those values, the first of equal ones winning;
    /// where none is finite it stays at positive infinity, at the origin.
    pub fn new(
        particle_count: usize,
        dimensions: usize,
        bounds: (Scalar, Scalar),
        social_coefficient: Scalar,
        cognitive_coefficient: Scalar,
        inertia_coefficient: Scalar,
        meta: MetaConfig,
        positions: Vec<VectorN>,
        values: Vec<Scalar>,
    ) -> (r: Result<WorldState, ConfigError>)
        ensures
            !bounds.0.lt_spec(bounds.1) ==> r == Err::<WorldState, ConfigError>(ConfigError::InvalidBounds),
            bounds.0.lt_spec(bounds.1) && particle_count == 0 ==> r == Err::<WorldState, ConfigError>(
                ConfigError::NoParticles,
            ),
            bounds.0.lt_spec(bounds.1) && particle_count > 0 && !samples_fit(
                positions@,
                values@,
                particle_count as nat,
                dimensions as nat,
            ) ==> r == Err::<WorldState, ConfigError>(ConfigError::DimensionMismatch),
            bounds.0.lt_spec(bounds.1) && particle_count > 0 && samples_fit(
                positions@,
                values@,
                particle_count as nat,
                dimensions as nat,
            ) ==> r is Ok,
            r is Ok ==> {
                let w = r->Ok_0;
                &&& w.wf()
                &&& w.bounds == (Bounds { lower: bounds.0, upper: bounds.1 })
                &&& w.dimensions == dimensions
                &&& w.particles@.len() == particle_count
                &&& w.coefficients_spec() == (Coefficients {
                    social: social_coefficient,
                    cognitive: cognitive_coefficient,
                    inertia: inertia_coefficient,
                })
                &&& w.meta == meta
                &&& w.seeded_from(views(positions@), values@)
            },
    {
        let b = match Bounds::new(bounds.0, bounds.1) {
            Ok(b) => b,
            Err(e) => {
                return Err(e);
            },
        };
        if particle_count == 0 {
            return Err(ConfigError::NoParticles);
        }
        if !shapes_match(&positions, &values, particle_count, dimensions) {
            return Err(ConfigError::DimensionMismatch);
        }
        let mut result = WorldState {
            particles: Vec::new(),
            best_solution: VectorN::zero(dimensions),
            best_solution_value: Scalar::infinity(),
            bounds: b,
            dimensions,
            social_coefficient,
            cognitive_coefficient,
            inertia_coefficient,
            meta,
        };
        result.seed(&positions, &values);
        Ok(result)
    }

    /// Starts every particle afresh at `positions` and takes the global best
    /// from `values` alone, forgetting every earlier best. The box, the
    /// coefficients and the DE parameters stay.
    pub fn reset(&mut self, positions: &Vec<VectorN>, values: &Vec<Scalar>)
        requires
            old(self).wf(),
            samples_fit(positions@, values@, old(self).particles@.len(), old(self).dimensions as nat),
        ensures
            final(self).wf(),
            final(self).same_config(*old(self)),
            final(self).seeded_from(views(positions@), values@),
    {
        self.seed(positions, values);
    }

    /// Takes in the objective's values at the particles' current positions.
    /// A particle's personal best moves to its position where the value is
    /// strictly better; the global best moves to the first position whose
    /// value is strictly better than the best so far.
    pub fn update_best_solutions(&mut self, values: &Vec<Scalar>)
        requires
            old(self).wf(),
            values@.len() == old(self).particles@.len(),
        ensures
            final(self).wf(),
            final(self).same_config(*old(self)),
            final(self).particles@.len() == old(self).particles@.len(),
            forall|i: int|
                0 <= i < values@.len() ==> (#[trigger] final(self).particles@[i]).updated_from(
                    old(self).particles@[i],
                    values@[i],
                ) && final(self).particles@[i].coordinates == old(self).particles@[i].coordinates,
            final(self).best_solution_value == best_of(values@, old(self).best_solution_value).0,
            final(self).best_solution@ == position_of(
                best_of(values@, old(self).best_solution_value).1,
                old(self).positions(),
                old(self).best_solution@,
            ),
            final(self).best_solution_value.fitness_rank() <= old(self).best_solution_value.fitness_rank(),
    {
        let n = self.particles.len();
        let ghost start = old(self).best_solution_value;
        let mut i: usize = 0;
        while i < n
            invariant
                i <= n,
                n == old(self).particles@.len(),
                values@.len() == n,
                old(self).wf(),
                self.particles@.len() == n,
                self.same_config(*old(self)),
                self.best_solution@.len() == self.dimensions,
                self.bounds.valid(),
                self.best_solution_value == scan_best(values@, start, i as nat).0,
                self.best_solution@ == position_of(
                    scan_best(values@, start, i as nat).1,
                    old(self).positions(),
                    old(self).best_solution@,
                ),
                forall|j: int|
                    0 <= j < i ==> (#[trigger] self.particles@[j]).updated_from(old(self).particles@[j], values@[j])
                        && self.particles@[j].coordinates == old(self).particles@[j].coordinates,
                forall|j: int| i <= j < n ==> #[trigger] self.particles@[j] == old(self).particles@[j],
            decreases n - i,
        {
            let value = values[i];
            if value.better_than(&self.best_solution_value) {
                self.best_solution_value = value;
                self.best_solution = self.particles[i].coordinates.duplicate();
            }
            if value.better_than(&self.particles[i].best_found_solution_value) {
                let here = self.particles[i].coordinates.duplicate();
                self.particles[i].best_found_solution = here;
                self.particles[i].best_found_solution_value = value;
            }
            i = i + 1;
        }
        proof {
            lemma_scan_is_minimum(values@, start, n as nat);
            assert forall|j: int| 0 <= j < n implies self.particle_ok(#[trigger] self.particles@[j]) by {
                assert(old(self).particle_ok(old(self).particles@[j]));
            }
        }
    }

    /// Sets the swarm's coefficients, and every particle's copy of them.
    pub fn apply_coefficients(&mut self, coefficients: Coefficients)
        requires
            old(self).wf(),
        ensures
            final(self).wf(),
            final(self).coefficients_spec() == coefficients,
            final(self).bounds == old(self).bounds,
            final(self).dimensions == old(self).dimensions,
            final(self).meta == old(self).meta,
            final(self).same_best(*old(self)),
            final(self).particles@.len() == old(self).particles@.len(),
            forall|i: int|
                0 <= i < old(self).particles@.len() ==> {
                    &&& (#[trigger] final(self).particles@[i]).same_motion(old(self).particles@[i])
                    &&& final(self).particles@[i].same_memory(old(self).particles@[i])
                    &&& final(self).particles@[i].coefficients_spec() == coefficients
                },
    {
        self.social_coefficient = coefficients.social;
        self.cognitive_coefficient = coefficients.cognitive;
        self.inertia_coefficient = coefficients.inertia;
        let n = self.particles.len();
        let mut i: usize = 0;
        while i < n
            invariant
                i <= n,
                n == old(self).particles@.len(),
                old(self).wf(),
                self.particles@.len() == n,
                self.coefficients_spec() == coefficients,
                self.bounds == old(self).bounds,
                self.dimensions == old(self).dimensions,
                self.meta == old(self).meta,
                self.same_best(*old(self)),
                forall|j: int|
                    0 <= j < i ==> {
                        &&& (#[trigger] self.particles@[j]).same_motion(old(self).particles@[j])
                        &&& self.particles@[j].same_memory(old(self).particles@[j])
                        &&& self.particles@[j].bounds == old(self).particles@[j].bounds
                        &&& self.particles@[j].coefficients_spec() == coefficients
                    },
                forall|j: int| i <= j < n ==> #[trigger] self.particles@[j] == old(self).particles@[j],
            decreases n - i,
        {
            self.particles[i].social_coefficient = coefficients.social;
            self.particles[i].cognitive_coefficient = coefficients.cognitive;
            self.particles[i].inertia_coefficient = coefficients.inertia;
            i = i + 1;
        }
        proof {
            assert forall|j: int| 0 <= j < n implies self.particle_ok(#[trigger] self.particles@[j]) by {
                assert(old(self).particle_ok(old(self).particles@[j]));
            }
        }
    }

    /// Takes each particle's new velocity, and its new position clamped into
    /// the box. Personal and global bests are left as they are: they follow
    /// only once the new positions are evaluated.
    pub fn commit_motion(&mut self, motions: &Vec<Motion>)
        requires
            old(self).wf(),
            motions@.len() == old(self).particles@.len(),
            forall|i: int|
                0 <= i < motions@.len() ==> (#[trigger] motions@[i]).velocity@.len() == old(self).dimensions
                    && motions@[i].position@.len() == old(self).dimensions,
        ensures
            final(self).wf(),
            final(self).same_config(*old(self)),
            final(self).same_best(*old(self)),
            final(self).particles@.len() == old(self).particles@.len(),
            forall|i: int|
                0 <= i < motions@.len() ==> {
                    &&& (#[trigger] final(self).particles@[i]).current_speed@ == motions@[i].velocity@
                    &&& final(self).particles@[i].coordinates@ == clamp_seq(motions@[i].position@, old(self).bounds)
                    &&& final(self).particles@[i].same_memory(old(self).particles@[i])
                    &&& final(self).particles@[i].same_setup(old(self).particles@[i])
                },
    {
        let n = self.particles.len();
        let bounds = self.bounds;
        let mut i: usize = 0;
        while i < n
            invariant
                i <= n,
                n == old(self).particles@.len(),
                motions@.len() == n,
                bounds == old(self).bounds,
                old(self).wf(),
                forall|k: int|
                    0 <= k < n ==> (#[trigger] motions@[k]).velocity@.len() == old(self).dimensions
                        && motions@[k].position@.len() == old(self).dimensions,
                self.particles@.len() == n,
                self.same_config(*old(self)),
                self.same_best(*old(self)),
                forall|j: int|
                    0 <= j < i ==> {
                        &&& (#[trigger] self.particles@[j]).current_speed@ == motions@[j].velocity@
                        &&& self.particles@[j].coordinates@ == clamp_seq(motions@[j].position@, bounds)
                        &&& self.particles@[j].same_memory(old(self).particles@[j])
                        &&& self.particles@[j].same_setup(old(self).particles@[j])
                    },
                forall|j: int| i <= j < n ==> #[trigger] self.particles@[j] == old(self).particles@[j],
            decreases n - i,
        {
            let velocity = motions[i].velocity.duplicate();
            let mut position = motions[i].position.duplicate();
            position.clamp(bounds);
            self.particles[i].current_speed = velocity;
            self.particles[i].coordinates = position;
            i = i + 1;
        }
        proof {
            assert forall|j: int| 0 <= j < n implies self.particle_ok(#[trigger] self.particles@[j]) by {
                assert(old(self).particle_ok(old(self).particles@[j]));
            }
        }
    }

    /// One PSO iteration once the motion is computed: the moves are
    /// committed (positions clamped into the box), the objective is
    /// evaluated at every new position, in order, and the bests are updated
    /// from those values. The values are returned. The global best value
    /// never gets worse.
    pub fn do_iteration<F: Fn(&VectorN) -> Scalar>(&mut self, motions: &Vec<Motion>, objective: &F) -> (values: Vec<Scalar>)
        requires
            old(self).wf(),
            motions@.len() == old(self).particles@.len(),
            forall|i: int|
                0 <= i < motions@.len() ==> (#[trigger] motions@[i]).velocity@.len() == old(self).dimensions
                    && motions@[i].position@.len() == old(self).dimensions,
            forall|v: &VectorN| objective.requires((v,)),
        ensures
            final(self).wf(),
            final(self).same_config(*old(self)),
            final(self).particles@.len() == old(self).particles@.len(),
            values@.len() == old(self).particles@.len(),
            forall|i: int|
                0 <= i < motions@.len() ==> {
                    &&& (#[trigger] final(self).particles@[i]).current_speed@ == motions@[i].velocity@
                    &&& final(self).particles@[i].coordinates@ == clamp_seq(motions@[i].position@, old(self).bounds)
                    &&& objective.ensures((&final(self).particles@[i].coordinates,), values@[i])
                },
            final(self).best_solution_value == best_of(values@, old(self).best_solution_value).0,
            final(self).best_solution_value.fitness_rank() <= old(self).best_solution_value.fitness_rank(),
    {
        self.commit_motion(motions);
        let ghost moved = *self;
        let n = self.particles.len();
        let mut values: Vec<Scalar> = Vec::new();
        let mut i: usize = 0;
        while i < n
            invariant
                i <= n,
                n == self.particles@.len(),
                *self == moved,
                values@.len() == i,
                forall|j: int| 0 <= j < i ==> objective.ensures((&self.particles@[j].coordinates,), #[trigger] values@[j]),
                forall|v: &VectorN| objective.requires((v,)),
            decreases n - i,
        {
            let v = objective(&self.particles[i].coordinates);
            values.push(v);
            i = i + 1;
        }
        self.update_best_solutions(&values);
        values
    }

    /// The particles' current positions, in order.
    pub fn snapshot(&self) -> (r: Vec<VectorN>)
        ensures
            views(r@) == self.positions(),
    {
        let mut r: Vec<VectorN> = Vec::new();
        let mut i: usize = 0;
        while i < self.particles.len()
            invariant
                i <= self.particles@.len(),
                r@.len() == i,
                forall|j: int| 0 <= j < i ==> (#[trigger] r@[j])@ == self.particles@[j].coordinates@,
            decreases self.particles@.len() - i,
        {
            r.push(self.particles[i].coordinates.duplicate());
            i = i + 1;
        }
        assert(views(r@) =~= self.positions());
        r
    }

    pub fn best_solution_value(&self) -> (r: Scalar)
        ensures
            r == self.best_solution_value,
    {
        self.best_solution_value
    }

    pub fn coefficients(&self) -> (r: Coefficients)
        ensures
            r == self.coefficients_spec(),
    {
        Coefficients {
            social: self.social_coefficient,
            cognitive: self.cognitive_coefficient,
            inertia: self.inertia_coefficient,
        }
    }

    pub fn particle_count(&self) -> (r: usize)
        ensures
            r == self.particles@.len(),
    {
        self.particles.len()
    }
}

/// Whether `positions` and `values` describe `count` particles in
/// `dimensions` dimensions.
fn shapes_match(positions: &Vec<VectorN>, values: &Vec<Scalar>, count: usize, dimensions: usize) -> (r: bool)
    ensures
        r == samples_fit(positions@, values@, count as nat, dimensions as nat),
{
    if positions.len() != count || values.len() != count {
        return false;
    }
    let mut i: usize = 0;
    while i < count
        invariant
            i <= count,
            positions@.len() == count,
            forall|j: int| 0 <= j < i ==> (#[trigger] positions@[j])@.len() == dimensions,
        decreases count - i,
    {
        if positions[i].len() != dimensions {
            return false;
        }
        i = i + 1;
    }
    true
}

/// The best fitness among the values of one sweep, positive infinity where
/// none is finite. This is what a tuning step reports to the minimizer.
pub fn sweep_best_value(values: &Vec<Scalar>) -> (r: Scalar)
    ensures
        r == best_of(values@, unseen()).0,
{
    let mut best = Scalar::infinity();
    let mut i: usize = 0;
    while i < values.len()
        invariant
            i <= values@.len(),
            best == scan_best(values@, unseen(), i as nat).0,
        decreases values@.len() - i,
    {
        if values[i].better_than(&best) {
            best = values[i];
        }
        i = i + 1;
    }
    best
}

/// A scan ends with the best of its start and the values it saw: no seen
/// value is strictly better, and where a value took over it is the first
/// of the best ones.
pub proof fn lemma_scan_is_minimum(values: Seq<Scalar>, start: Scalar, n: nat)
    requires
        n <= values.len(),
    ensures
        scan_best(values, start, n).0.fitness_rank() <= start.fitness_rank(),
        forall|j: int| 0 <= j < n ==> scan_best(values, start, n).0.fitness_rank() <= (#[trigger] values[j]).fitness_rank(),
        match scan_best(values, start, n).1 {
            Some(i) => {
                &&& 0 <= i < n
                &&& scan_best(values, start, n).0 == values[i]
                &&& values[i].fitness_rank() < start.fitness_rank()
                &&& forall|j: int| 0 <= j < i ==> (#[trigger] values[j]).fitness_rank() > values[i].fitness_rank()
            },
            None => scan_best(values, start, n).0 == start,
        },
    decreases n,
{
    if n > 0 {
        lemma_scan_is_minimum(values, start, (n - 1) as nat);
    }
}

/// After a swarm is created or reset, its global best value is the minimum
/// fitness over the initial positions: no initial value is strictly better,
/// and where any is finite the best is the first of the best values, at its
/// particle's position. Where none is finite the best stays at positive
/// infinity.
pub proof fn lemma_seeded_best_is_minimum(w: WorldState, positions: Seq<Seq<Scalar>>, values: Seq<Scalar>)
    requires
        w.seeded_from(positions, values),
        values.len() == positions.len(),
    ensures
        forall|j: int| 0 <= j < values.len() ==> w.best_solution_value.fitness_rank() <= (#[trigger] values[j]).fitness_rank(),
        (exists|j: int| 0 <= j < values.len() && (#[trigger] values[j]).is_finite_spec()) ==> exists|i: int|
            {
                &&& 0 <= i < values.len()
                &&& w.best_solution_value == values[i]
                &&& w.best_solution@ == positions[i]
                &&& forall|j: int| 0 <= j < i ==> (#[trigger] values[j]).fitness_rank() > values[i].fitness_rank()
            },
        (forall|j: int| 0 <= j < values.len() ==> !(#[trigger] values[j]).is_finite_spec()) ==> w.best_solution_value
            == unseen(),
{
    lemma_scan_is_minimum(values, unseen(), values.len());
    if exists|j: int| 0 <= j < values.len() && (#[trigger] values[j]).is_finite_spec() {
        let j = choose|j: int| 0 <= j < values.len() && (#[trigger] values[j]).is_finite_spec();
        assert(values[j].fitness_rank() < unseen().fitness_rank());
        let i = best_of(values, unseen()).1->Some_0;
        assert(best_of(values, unseen()).1 is Some);
        assert(0 <= i < values.len());
    }
}

/// Reset leaves nothing of the run before it: two swarms of one dimension
/// that were reset to the same positions and values have the same bests.
pub proof fn lemma_reset_forgets(a: WorldState, b: WorldState, positions: Seq<Seq<Scalar>>, values: Seq<Scalar>)
    requires
        a.seeded_from(positions, values),
        b.seeded_from(positions, values),
        a.dimensions == b.dimensions,
    ensures
        a.same_best(b),
        a.particles@.len() == b.particles@.len(),
        forall|i: int|
            0 <= i < a.particles@.len() ==> (#[trigger] a.particles@[i]).same_memory(b.particles@[i])
                && a.particles@[i].same_motion(b.particles@[i]),
{
    assert forall|i: int| 0 <= i < a.particles@.len() implies (#[trigger] a.particles@[i]).same_memory(b.particles@[i])
        && a.particles@[i].same_motion(b.particles@[i]) by {
        assert(a.particles@[i].fresh_at(positions[i], values[i]));
        assert(b.particles@[i].fresh_at(positions[i], values[i]));
    }
}

} // verus!
