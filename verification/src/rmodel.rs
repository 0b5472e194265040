//! The model contract: the status codes a model hook returns, and the
//! traits a model and its framework accessor implement. The runtime only
//! consumes these values; it never produces them.

use vstd::prelude::*;

verus! {

/// Outcome of a configuration or initialization hook.
#[derive(Copy, Clone, Debug, PartialEq, Eq, Structural)]
pub enum ConfigStatus {
    OK,
    ERR,
    CONTINUE,
}

/// Outcome of a per-frame execution hook. `STOP` asks for normal
/// termination; it is not an error.
#[derive(Copy, Clone, Debug, PartialEq, Eq, Structural)]
pub enum RunStatus {
    OK,
    ERR,
    STOP,
}

/// Framework-time accessor handed to every model hook. Times are integer
/// nanosecond counts so that the runtime's pacing arithmetic is exact.
pub trait RFrameWork {
    fn get_time_ns(&self) -> u64;

    fn get_tick(&self) -> i64;

    fn get_tdelta_ns(&self) -> u64;
}

/// The hooks every model implements for integration into the framework.
/// The runtime never calls these directly; a thread context adapter does.
pub trait RModel<F: RFrameWork> {
    /// Called when a model configuration update is requested.
    fn config(&mut self, fw: &mut F) -> ConfigStatus;

    /// Called at least once during scenario initialization.
    fn init(&mut self, fw: &mut F) -> ConfigStatus;

    /// Called once per frame to update the outputs of the model.
    fn step(&mut self, fw: &mut F) -> RunStatus;

    /// Called upon termination of the model.
    fn halt(&mut self, fw: &mut F) -> RunStatus;
}

} // verus!
