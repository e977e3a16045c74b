//! What can end a run, or keep it from starting.

use vstd::prelude::*;

verus! {

/// Why the engine gave up.
#[derive(Debug, Clone, Copy, PartialEq, Eq, Structural)]
pub enum SimulationError {
    /// A table handed to the engine is malformed.
    InvalidConfiguration,
    /// No positive age was drawn within the attempts that a draw is given.
    SamplingExhausted,
}

} // verus!
