//! The messages exchanged between the caller, the coordinator and the
//! worker threads: commands flowing down, results flowing back up.

use vstd::prelude::*;

verus! {

/// A command sent by the caller to the coordinator, or broadcast by the
/// coordinator to every worker. `EXECUTE(n)` requests `n` lock-step frames;
/// zero is a degenerate no-op.
#[derive(Copy, Clone, Debug, PartialEq, Eq, Structural)]
pub enum ThreadCommand {
    INIT,
    EXECUTE(u64),
    PAUSE,
    SHUTDOWN,
}

/// A result sent by a worker back to the coordinator. `END` signals that
/// the worker's model requested termination; it is not an error.
#[derive(Copy, Clone, Debug, PartialEq, Eq, Structural)]
pub enum ThreadResult {
    OK,
    ERR,
    END,
}

} // verus!
