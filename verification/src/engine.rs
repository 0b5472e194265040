//! The engine facade: the lifecycle operations an embedding application
//! sees. Each request forwards a command to the coordinator and returns an
//! acknowledgement code; the state read never blocks and never fails
//! destructively.

use vstd::prelude::*;
use crate::state::EngineState;

verus! {

/// The API an engine presents to the embedding application.
pub trait Engine {
    /// Read the current lifecycle state without blocking.
    fn get_state(&self) -> EngineState;

    /// Request initialization of every model context.
    fn init(&mut self) -> i32;

    /// Request `steps` lock-step frames.
    fn step(&mut self, steps: u64) -> i32;

    /// Request a pause of the current frame loop.
    fn pause(&mut self) -> i32;

    /// Request a shutdown of the whole engine.
    fn end(&mut self) -> i32;
}

} // verus!
