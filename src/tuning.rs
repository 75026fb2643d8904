use vstd::prelude::*;

use crate::de::{Coefficients, DeConfig, DeOptimizationTarget};
use crate::error::BoundaryError;
use crate::scalar::Scalar;

verus! {

/// Where a tuning step stands.
#[derive(Clone, Copy, Debug, PartialEq, Eq, Structural)]
pub enum TuningPhase {
    /// No call is outstanding and no result buffer is held.
    Idle,
    /// The minimizer has been called and has not returned.
    AwaitingResult,
    /// The minimizer returned a buffer, which has not been released yet.
    HoldingResult,
}

/// What happened since the last decision.
#[derive(Clone, Debug)]
pub enum TuningEvent {
    /// A tuning step is to begin with these solver parameters.
    Start(DeConfig),
    /// The minimizer returned a buffer holding these coordinates.
    Returned(Vec<Scalar>),
    /// The buffer has been handed back to the solver's release function.
    Released,
}

/// What to do next.
#[derive(Clone, Copy, Debug, PartialEq, Eq, Structural)]
pub enum TuningAction {
    /// Call the minimizer over `target` with `config`.
    CallMinimizer { target: DeOptimizationTarget, config: DeConfig },
    /// Release the buffer just returned, once, through the solver's own
    /// release function.
    ReleaseResult,
    /// Apply the coefficients to the swarm and every particle, then sweep.
    Apply(Coefficients),
    /// The step failed: the run ends with this error.
    Abort(BoundaryError),
    /// The event does not fit the phase; nothing is to be done.
    Ignore,
}

/// The decisions of one tuning step: call the minimizer, release the buffer
/// it returned exactly once, and only then apply the coefficients read from
/// it (or fail). The counts of buffers obtained and released are kept as
/// ghost state.
pub struct TuningSession {
    pub phase: TuningPhase,
    /// The reading of the buffer held, while one is held.
    pub held: Option<Result<Coefficients, BoundaryError>>,
    pub obtained: Ghost<nat>,
    pub released: Ghost<nat>,
}

impl TuningSession {
    /// Every buffer obtained has been released, but for the one held in
    /// `HoldingResult`, and a reading is kept exactly while it is held.
    pub open spec fn wf(self) -> bool {
        &&& (self.phase == TuningPhase::HoldingResult) == (self.held is Some)
        &&& self.obtained@ == self.released@ + if self.phase == TuningPhase::HoldingResult {
            1nat
        } else {
            0nat
        }
    }

    pub fn new() -> (r: TuningSession)
        ensures
            r.wf(),
            r.phase == TuningPhase::Idle,
            r.obtained@ == 0,
            r.released@ == 0,
    {
        TuningSession { phase: TuningPhase::Idle, held: None, obtained: Ghost(0), released: Ghost(0) }
    }

    /// Decides on `event` and moves to the next phase.
    pub fn step(&mut self, event: TuningEvent) -> (r: TuningAction)
        requires
            old(self).wf(),
        ensures
            final(self).wf(),
            match (old(self).phase, event) {
                (TuningPhase::Idle, TuningEvent::Start(config)) => {
                    &&& r == (TuningAction::CallMinimizer {
                        target: DeOptimizationTarget::coefficient_space_spec(),
                        config,
                    })
                    &&& final(self).phase == TuningPhase::AwaitingResult
                    &&& final(self).obtained == old(self).obtained
                    &&& final(self).released == old(self).released
                },
                (TuningPhase::AwaitingResult, TuningEvent::Returned(coordinates)) => {
                    &&& r == TuningAction::ReleaseResult
                    &&& final(self).phase == TuningPhase::HoldingResult
                    &&& final(self).held == Some(Coefficients::read_spec(coordinates@))
                    &&& final(self).obtained@ == old(self).obtained@ + 1
                    &&& final(self).released == old(self).released
                },
                (TuningPhase::HoldingResult, TuningEvent::Released) => {
                    &&& r == match old(self).held.unwrap() {
                        Ok(c) => TuningAction::Apply(c),
                        Err(e) => TuningAction::Abort(e),
                    }
                    &&& final(self).phase == TuningPhase::Idle
                    &&& final(self).obtained == old(self).obtained
                    &&& final(self).released@ == old(self).released@ + 1
                },
                _ => r == TuningAction::Ignore && *final(self) == *old(self),
            },
    {
        match (self.phase, event) {
            (TuningPhase::Idle, TuningEvent::Start(config)) => {
                self.phase = TuningPhase::AwaitingResult;
                TuningAction::CallMinimizer { target: DeOptimizationTarget::coefficient_space(), config }
            },
            (TuningPhase::AwaitingResult, TuningEvent::Returned(coordinates)) => {
                self.held = Some(Coefficients::from_coordinates(&coordinates));
                self.phase = TuningPhase::HoldingResult;
                self.obtained = Ghost(self.obtained@ + 1);
                TuningAction::ReleaseResult
            },
            (TuningPhase::HoldingResult, TuningEvent::Released) => {
                let reading = self.held.take();
                self.phase = TuningPhase::Idle;
                self.released = Ghost(self.released@ + 1);
                match reading {
                    Some(Ok(c)) => TuningAction::Apply(c),
                    Some(Err(e)) => TuningAction::Abort(e),
                    None => TuningAction::Abort(BoundaryError::UnexpectedEvent),
                }
            },
            _ => TuningAction::Ignore,
        }
    }
}

/// Whenever no tuning call is outstanding and no buffer is held, every
/// buffer the minimizer handed out has been released, and released once.
pub proof fn lemma_released_when_idle(s: TuningSession)
    requires
        s.wf(),
        s.phase == TuningPhase::Idle,
    ensures
        s.obtained@ == s.released@,
{
}

/// At any point at most one buffer is held, and no buffer is released
/// that was not obtained.
pub proof fn lemma_release_bounded(s: TuningSession)
    requires
        s.wf(),
    ensures
        s.released@ <= s.obtained@ <= s.released@ + 1,
{
}

} // verus!
