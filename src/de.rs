use vstd::prelude::*;

use crate::error::{BoundaryError, ConfigError};
use crate::scalar::{Scalar, ONE_BITS};

verus! {

/// Largest value of the 32-bit population field.
pub const POPULATION_LIMIT: usize = 0xFFFF_FFFF;

/// The coefficient space that the minimizer searches has three dimensions:
/// social, cognitive, inertia.
pub const COEFFICIENT_COUNT: u32 = 3;

/// Which termination rule the DE solver follows.
#[derive(Clone, Copy, Debug, PartialEq, Eq, Structural)]
pub enum DeStopType {
    StopAfterIters,
    StopWhenSatisfied,
}

/// The solver's termination rule: a tag and an eight-byte payload that holds
/// either an iteration count or the word of a target accuracy. The tag says
/// which; the accessors read the payload only as the tag allows.
#[derive(Clone, Copy, Debug, PartialEq, Eq, Structural)]
pub struct DeStopCondition {
    pub stype: DeStopType,
    pub payload: u64,
}

impl DeStopCondition {
    /// Stop after `iters` generations.
    pub fn after_iters(iters: u64) -> (r: DeStopCondition)
        ensures
            r.stype == DeStopType::StopAfterIters,
            r.payload == iters,
    {
        DeStopCondition { stype: DeStopType::StopAfterIters, payload: iters }
    }

    /// Stop once the best fitness is within `accuracy`.
    pub fn when_satisfied(accuracy: Scalar) -> (r: DeStopCondition)
        ensures
            r.stype == DeStopType::StopWhenSatisfied,
            r.payload == accuracy.bits,
    {
        DeStopCondition { stype: DeStopType::StopWhenSatisfied, payload: accuracy.bits }
    }

    /// The iteration budget, present only under `StopAfterIters`.
    pub fn iterations(&self) -> (r: Option<u64>)
        ensures
            self.stype == DeStopType::StopAfterIters ==> r == Some(self.payload),
            self.stype == DeStopType::StopWhenSatisfied ==> r is None,
    {
        match self.stype {
            DeStopType::StopAfterIters => Some(self.payload),
            DeStopType::StopWhenSatisfied => None,
        }
    }

    /// The target accuracy, present only under `StopWhenSatisfied`.
    pub fn accuracy(&self) -> (r: Option<Scalar>)
        ensures
            self.stype == DeStopType::StopWhenSatisfied ==> r == Some(Scalar { bits: self.payload }),
            self.stype == DeStopType::StopAfterIters ==> r is None,
    {
        match self.stype {
            DeStopType::StopAfterIters => None,
            DeStopType::StopWhenSatisfied => Some(Scalar { bits: self.payload }),
        }
    }
}

/// The solver's parameters, laid out as the call boundary takes them.
#[derive(Clone, Copy, Debug, PartialEq, Eq, Structural)]
pub struct DeConfig {
    pub population_size: u32,
    pub crossover_probability: Scalar,
    pub amplification_factor: Scalar,
    pub lambda: Scalar,
    pub stop_condition: DeStopCondition,
}

/// What the solver minimises over: the box `[left_bound, right_bound]` in
/// `num_dimensions` dimensions. The objective callback is attached where
/// the call is made.
#[derive(Clone, Copy, Debug, PartialEq, Eq, Structural)]
pub struct DeOptimizationTarget {
    pub num_dimensions: u32,
    pub left_bound: Scalar,
    pub right_bound: Scalar,
}

impl DeOptimizationTarget {
    pub open spec fn coefficient_space_spec() -> DeOptimizationTarget {
        DeOptimizationTarget {
            num_dimensions: COEFFICIENT_COUNT,
            left_bound: Scalar { bits: 0 },
            right_bound: Scalar { bits: ONE_BITS },
        }
    }

    /// The coefficient space `[0, 1]^3` searched at every tuning step.
    pub fn coefficient_space() -> (r: DeOptimizationTarget)
        ensures
            r == DeOptimizationTarget::coefficient_space_spec(),
            r.num_dimensions == COEFFICIENT_COUNT,
            r.left_bound.bits == 0,
            r.right_bound.bits == ONE_BITS,
    {
        DeOptimizationTarget {
            num_dimensions: COEFFICIENT_COUNT,
            left_bound: Scalar::zero(),
            right_bound: Scalar::one(),
        }
    }
}

/// The DE tuning parameters a swarm carries from run to run.
#[derive(Clone, Copy, Debug, PartialEq, Eq, Structural)]
pub struct MetaConfig {
    pub de_population_size: usize,
    pub de_crossover_probability: Scalar,
    pub de_diff_weight: Scalar,
    pub de_lambda: Scalar,
    pub de_num_iters: usize,
}

impl MetaConfig {
    pub fn new(
        de_population_size: usize,
        de_crossover_probability: Scalar,
        de_diff_weight: Scalar,
        de_lambda: Scalar,
        de_num_iters: usize,
    ) -> (r: MetaConfig)
        ensures
            r == (MetaConfig {
                de_population_size,
                de_crossover_probability,
                de_diff_weight,
                de_lambda,
                de_num_iters,
            }),
    {
        MetaConfig {
            de_population_size,
            de_crossover_probability,
            de_diff_weight,
            de_lambda,
            de_num_iters,
        }
    }

    /// The descriptor the solver is called with: the population in 32 bits
    /// and an iteration budget of `de_num_iters`. A population that does not
    /// fit 32 bits is refused rather than cut down.
    pub fn de_config(&self) -> (r: Result<DeConfig, ConfigError>)
        ensures
            self.de_population_size <= POPULATION_LIMIT ==> r == Ok::<DeConfig, ConfigError>(
                DeConfig {
                    population_size: self.de_population_size as u32,
                    crossover_probability: self.de_crossover_probability,
                    amplification_factor: self.de_diff_weight,
                    lambda: self.de_lambda,
                    stop_condition: DeStopCondition {
                        stype: DeStopType::StopAfterIters,
                        payload: self.de_num_iters as u64,
                    },
                },
            ),
            self.de_population_size > POPULATION_LIMIT ==> r == Err::<DeConfig, ConfigError>(
                ConfigError::PopulationTooLarge,
            ),
    {
        if self.de_population_size > POPULATION_LIMIT {
            return Err(ConfigError::PopulationTooLarge);
        }
        Ok(DeConfig {
            population_size: self.de_population_size as u32,
            crossover_probability: self.de_crossover_probability,
            amplification_factor: self.de_diff_weight,
            lambda: self.de_lambda,
            stop_condition: DeStopCondition::after_iters(self.de_num_iters as u64),
        })
    }
}

/// The three PSO control coefficients.
#[derive(Clone, Copy, Debug, PartialEq, Eq, Structural)]
pub struct Coefficients {
    pub social: Scalar,
    pub cognitive: Scalar,
    pub inertia: Scalar,
}

impl Coefficients {
    /// A minimizer result read as (social, cognitive, inertia).
    pub open spec fn read_spec(coordinates: Seq<Scalar>) -> Result<Coefficients, BoundaryError> {
        if coordinates.len() == 3 {
            Ok(Coefficients { social: coordinates[0], cognitive: coordinates[1], inertia: coordinates[2] })
        } else {
            Err(BoundaryError::ResultDimensionMismatch)
        }
    }

    pub fn new(social: Scalar, cognitive: Scalar, inertia: Scalar) -> (r: Coefficients)
        ensures
            r == (Coefficients { social, cognitive, inertia }),
    {
        Coefficients { social, cognitive, inertia }
    }

    /// Reads a minimizer result as (social, cognitive, inertia). The buffer
    /// must hold exactly three coordinates.
    pub fn from_coordinates(coordinates: &Vec<Scalar>) -> (r: Result<Coefficients, BoundaryError>)
        ensures
            r == Coefficients::read_spec(coordinates@),
            coordinates@.len() == 3 ==> r == Ok::<Coefficients, BoundaryError>(
                Coefficients {
                    social: coordinates@[0],
                    cognitive: coordinates@[1],
                    inertia: coordinates@[2],
                },
            ),
            coordinates@.len() != 3 ==> r == Err::<Coefficients, BoundaryError>(
                BoundaryError::ResultDimensionMismatch,
            ),
    {
        if coordinates.len() != 3 {
            return Err(BoundaryError::ResultDimensionMismatch);
        }
        Ok(Coefficients { social: coordinates[0], cognitive: coordinates[1], inertia: coordinates[2] })
    }
}

} // verus!
