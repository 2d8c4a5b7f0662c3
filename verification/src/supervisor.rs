//! The supervisor's first-exit-wins composition.
//!
//! The supervisor runs three units concurrently — the liveness server, the
//! interrupt listener, and the authenticate/list/fetch/stream pipeline — and
//! adopts the outcome of whichever unit settles first, abandoning the rest.
//! A healthy long-running process is one where none of the three has exited
//! yet; any exit, even a clean one, is cause for full shutdown.

use vstd::prelude::*;
use crate::errors::BridgeError;

verus! {

/// The three concurrent units of work the supervisor races.
pub enum UnitId {
    LivenessServer,
    InterruptListener,
    Pipeline,
}

/// How a unit finished: a clean completion, or one of the terminal errors.
pub enum UnitOutcome {
    Success,
    Failure(BridgeError),
}

/// One settled unit: which one it was and how it finished.
pub struct Completion {
    pub unit: UnitId,
    pub outcome: UnitOutcome,
}

/// Adopt the first settled outcome.  `completions` lists the units in the
/// order they settled; whichever unit settled first — success or failure,
/// and regardless of the state of the others at that moment — its completion
/// is the supervisor's result.  `None` only while nothing has settled.
pub fn race_outcome(completions: &Vec<Completion>) -> (r: Option<&Completion>)
    ensures
        r is Some <==> completions@.len() > 0,
        r matches Some(c) ==> *c == completions@[0],
{
    if completions.len() > 0 {
        Some(&completions[0])
    } else {
        None
    }
}

/// Whether the process exit is clean (zero-equivalent).  Every terminal
/// error surfaces as a failure indication; only a unit that completed
/// successfully — in the running bridge, the interrupt listener's resolution
/// or the liveness server returning — exits the process cleanly.
pub fn exit_is_clean(completion: &Completion) -> (r: bool)
    ensures
        r == (completion.outcome is Success),
{
    match &completion.outcome {
        UnitOutcome::Success => true,
        UnitOutcome::Failure(_) => false,
    }
}

} // verus!
