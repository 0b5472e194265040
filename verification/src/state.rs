//! The engine-wide lifecycle state: a single shared value written only by
//! the coordinator and read by any caller.

use vstd::prelude::*;

verus! {

/// The phase the whole engine is in. The coordinator is the only writer;
/// transitions follow the coordinator state machine and stop at a terminal
/// state (`ENDED` or `ERRORED`).
#[derive(Copy, Clone, Debug, PartialEq, Eq, Structural)]
pub enum EngineState {
    CONFIG,
    INITIALIZING,
    INITIALIZED,
    RUNNING,
    PAUSED,
    ENDING,
    ENDED,
    ERRORED,
}

impl EngineState {
    /// A terminal state accepts no further transition.
    pub open spec fn is_terminal(self) -> bool {
        self == EngineState::ENDED || self == EngineState::ERRORED
    }

    /// Executable query matching `is_terminal`.
    pub fn terminal(&self) -> (r: bool)
        ensures
            r == self.is_terminal(),
    {
        match self {
            EngineState::ENDED => true,
            EngineState::ERRORED => true,
            _ => false,
        }
    }
}

} // verus!
