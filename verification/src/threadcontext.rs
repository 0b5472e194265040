//! The thread-context contract: the capability set a worker thread drives.
//! Generated or hand-written adapters implement this trait to plug a model
//! into the engine.

use vstd::prelude::*;
use crate::rmodel::{ConfigStatus, RunStatus};

verus! {

/// The simulation time descriptor of one worker thread. The frame delta is
/// an integer nanosecond count so that pacing arithmetic is exact.
#[derive(Copy, Clone, Debug, PartialEq, Eq, Structural)]
pub struct ThreadTime {
    pub delta_ns: u64,
    pub tick: i64,
}

impl Default for ThreadTime {
    fn default() -> (r: ThreadTime)
        ensures
            r.delta_ns == 0 && r.tick == 0,
    {
        ThreadTime { delta_ns: 0, tick: 0 }
    }
}

/// One model context, exclusively owned by one worker thread. The worker
/// executor translates coordinator commands into calls of these hooks.
pub trait ThreadContext {
    /// Set the simulation time of this thread.
    fn set_time(&mut self, new_time: ThreadTime) -> ConfigStatus;

    /// Read the time descriptor of this thread.
    fn get_time(&self) -> ThreadTime;

    /// Assign the worker identity; called once, at spawn.
    fn set_tid(&mut self, id: usize) -> ConfigStatus;

    /// Read the worker identity.
    fn get_tid(&self) -> usize;

    /// Run the model initialization hooks.
    fn init(&mut self) -> ConfigStatus;

    /// Execute one minor frame of the simulation.
    fn step(&mut self) -> RunStatus;

    /// Run the model halt hooks.
    fn end(&mut self) -> RunStatus;
}

} // verus!
