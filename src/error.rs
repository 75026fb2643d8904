use vstd::prelude::*;

verus! {

/// A run cannot be set up with these parameters.
#[derive(Clone, Copy, Debug, PartialEq, Eq, Structural)]
pub enum ConfigError {
    /// The lower bound is not strictly below the upper bound, or one is NaN.
    InvalidBounds,
    /// A swarm needs at least one particle.
    NoParticles,
    /// A coordinate sequence, or a list of per-particle values, has the wrong length.
    DimensionMismatch,
    /// The DE population does not fit the 32-bit field of the call descriptor.
    PopulationTooLarge,
}

/// The tuning step was driven against its protocol.
#[derive(Clone, Copy, Debug, PartialEq, Eq, Structural)]
pub enum BoundaryError {
    /// The minimizer handed back a buffer without exactly three coordinates.
    ResultDimensionMismatch,
    /// An event came that the current phase does not expect.
    UnexpectedEvent,
}

impl ConfigError {
    /// A short description of the error.
    pub fn message(&self) -> (r: String) {
        match self {
            ConfigError::InvalidBounds => String::from_str("incorrect order of bounds or zero size"),
            ConfigError::NoParticles => String::from_str("a swarm needs at least one particle"),
            ConfigError::DimensionMismatch => String::from_str("coordinate count does not match the dimension"),
            ConfigError::PopulationTooLarge => String::from_str("DE population does not fit in 32 bits"),
        }
    }
}

impl BoundaryError {
    /// A short description of the error.
    pub fn message(&self) -> (r: String) {
        match self {
            BoundaryError::ResultDimensionMismatch => String::from_str("minimizer result does not hold three coefficients"),
            BoundaryError::UnexpectedEvent => String::from_str("tuning event out of order"),
        }
    }
}

} // verus!
