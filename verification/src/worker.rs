//! The worker executor's decision logic: one machine per worker thread that
//! turns coordinator commands and model hook outcomes into the responses,
//! pacing sleeps and loop continuations the thread must perform.
//!
//! The thread itself (blocking receives, the barrier rendezvous, the hook
//! calls, the sleeps) lives outside the library; it drives this machine and
//! performs exactly the actions it returns.

use vstd::prelude::*;
use crate::messages::{ThreadCommand, ThreadResult};
use crate::rmodel::{ConfigStatus, RunStatus};

verus! {

/// How an initialization outcome is reported to the coordinator: success
/// passes through, everything else (including `CONTINUE`) is an error.
pub open spec fn spec_init_response(s: ConfigStatus) -> ThreadResult {
    match s {
        ConfigStatus::OK => ThreadResult::OK,
        ConfigStatus::ERR => ThreadResult::ERR,
        ConfigStatus::CONTINUE => ThreadResult::ERR,
    }
}

/// How a per-frame outcome is reported to the coordinator: a `STOP` request
/// becomes `END`; it is not an error.
pub open spec fn spec_frame_response(s: RunStatus) -> ThreadResult {
    match s {
        RunStatus::OK => ThreadResult::OK,
        RunStatus::ERR => ThreadResult::ERR,
        RunStatus::STOP => ThreadResult::END,
    }
}

/// Soft-real-time pacing: sleep up to the frame delta, never compensate an
/// overrun (drift is documented behavior, not corrected).
pub open spec fn spec_pacing_sleep(delta_ns: u64, elapsed_ns: u64) -> u64 {
    if elapsed_ns < delta_ns {
        (delta_ns - elapsed_ns) as u64
    } else {
        0u64
    }
}

/// Map an initialization outcome to the result sent to the coordinator.
pub fn init_response(s: &ConfigStatus) -> (r: ThreadResult)
    ensures
        r == spec_init_response(*s),
{
    match s {
        ConfigStatus::OK => ThreadResult::OK,
        ConfigStatus::ERR => ThreadResult::ERR,
        ConfigStatus::CONTINUE => ThreadResult::ERR,
    }
}

/// Map a per-frame outcome to the result sent to the coordinator.
pub fn frame_response(s: &RunStatus) -> (r: ThreadResult)
    ensures
        r == spec_frame_response(*s),
{
    match s {
        RunStatus::OK => ThreadResult::OK,
        RunStatus::ERR => ThreadResult::ERR,
        RunStatus::STOP => ThreadResult::END,
    }
}

/// How long to sleep after a paced frame whose body took `elapsed_ns`.
pub fn pacing_sleep_ns(delta_ns: u64, elapsed_ns: u64) -> (r: u64)
    ensures
        r == spec_pacing_sleep(delta_ns, elapsed_ns),
{
    if elapsed_ns < delta_ns {
        delta_ns - elapsed_ns
    } else {
        0
    }
}

/// Each paced frame whose body finishes within the delta lasts exactly the
/// delta: the sleep makes up the difference, so `k` such frames take
/// `k * delta_ns` in all. A frame that overran its delta gets no sleep and
/// no later compensation.
pub proof fn lemma_paced_frame_exact(delta_ns: u64, elapsed_ns: u64)
    ensures
        elapsed_ns <= delta_ns ==> spec_pacing_sleep(delta_ns, elapsed_ns) + elapsed_ns
            == delta_ns,
        elapsed_ns > delta_ns ==> spec_pacing_sleep(delta_ns, elapsed_ns) == 0,
{
}

/// Where the worker loop stands: idle between commands, inside an
/// `EXECUTE` request with frames still owed, or terminated.
#[derive(Copy, Clone, Debug, PartialEq, Eq, Structural)]
pub enum WorkerPhase {
    Idle,
    Stepping { remaining: u64 },
    Terminated,
}

/// What the worker thread must do next.
#[derive(Copy, Clone, Debug, PartialEq, Eq, Structural)]
pub enum WorkerDirective {
    /// Block on the command queue.
    AwaitCommand,
    /// Call the context's initialization hook, then report its outcome.
    RunInit,
    /// Rendezvous at the frame barrier, call the context's per-frame hook,
    /// then report its outcome.
    RunFrame,
    /// Exit the loop; the thread terminates.
    Exit,
}

/// The actions one completed frame demands of the thread.
#[derive(Copy, Clone, Debug, PartialEq, Eq, Structural)]
pub struct FrameActions {
    /// The result to send to the coordinator for this frame.
    pub response: ThreadResult,
    /// Whether a pending `PAUSE` was acknowledged (with `OK`); if so the
    /// remaining frames of the request are abandoned, not queued.
    pub pause_ack: bool,
    /// How long to sleep before the next frame; zero when pacing is off,
    /// when the frame overran its delta, or when pausing.
    pub sleep_ns: u64,
}

/// The decision state of one worker executor.
#[derive(Copy, Clone, Debug, PartialEq, Eq, Structural)]
pub struct WorkerMachine {
    pub phase: WorkerPhase,
    /// Whether soft-real-time pacing is enabled for this worker.
    pub pacing: bool,
    /// The frame delta used for pacing, in nanoseconds.
    pub delta_ns: u64,
}

/// The transition an idle worker makes on a received command.
pub open spec fn spec_worker_on_command(m: WorkerMachine, cmd: ThreadCommand) -> (
    WorkerMachine,
    WorkerDirective,
) {
    match cmd {
        ThreadCommand::INIT => (m, WorkerDirective::RunInit),
        ThreadCommand::EXECUTE(steps) => if steps == 0 {
            (m, WorkerDirective::AwaitCommand)
        } else {
            (
                (WorkerMachine { phase: WorkerPhase::Stepping { remaining: steps }, ..m }),
                WorkerDirective::RunFrame,
            )
        },
        ThreadCommand::PAUSE => (m, WorkerDirective::AwaitCommand),
        ThreadCommand::SHUTDOWN => (
            (WorkerMachine { phase: WorkerPhase::Terminated, ..m }),
            WorkerDirective::Exit,
        ),
    }
}

/// The transition a stepping worker makes once a frame's hook has returned
/// `status`, a pending `PAUSE` was (or was not) found, and the frame body
/// took `elapsed_ns`.
pub open spec fn spec_worker_on_frame_done(
    m: WorkerMachine,
    status: RunStatus,
    pause_pending: bool,
    elapsed_ns: u64,
) -> (WorkerMachine, FrameActions) {
    let sleep: u64 = if pause_pending || !m.pacing {
        0u64
    } else {
        spec_pacing_sleep(m.delta_ns, elapsed_ns)
    };
    let next = if pause_pending {
        WorkerPhase::Idle
    } else {
        match m.phase {
            WorkerPhase::Stepping { remaining } => if remaining > 1 {
                WorkerPhase::Stepping { remaining: (remaining - 1) as u64 }
            } else {
                WorkerPhase::Idle
            },
            other => other,
        }
    };
    (
        (WorkerMachine { phase: next, ..m }),
        (FrameActions {
            response: spec_frame_response(status),
            pause_ack: pause_pending,
            sleep_ns: sleep,
        }),
    )
}

impl WorkerMachine {
    /// A fresh worker, idle, with its pacing configuration.
    pub fn new(pacing: bool, delta_ns: u64) -> (m: WorkerMachine)
        ensures
            m == (WorkerMachine { phase: WorkerPhase::Idle, pacing, delta_ns }),
    {
        WorkerMachine { phase: WorkerPhase::Idle, pacing, delta_ns }
    }

    /// React to a command received while idle. `INIT` asks the thread to run
    /// the initialization hook; a positive `EXECUTE` enters the frame loop;
    /// `PAUSE` outside a frame loop is a no-op; `SHUTDOWN` terminates.
    pub fn on_command(&mut self, cmd: &ThreadCommand) -> (d: WorkerDirective)
        requires
            old(self).phase == WorkerPhase::Idle,
        ensures
            *final(self) == spec_worker_on_command(*old(self), *cmd).0,
            d == spec_worker_on_command(*old(self), *cmd).1,
    {
        match cmd {
            ThreadCommand::INIT => WorkerDirective::RunInit,
            ThreadCommand::EXECUTE(steps) => {
                if *steps == 0 {
                    WorkerDirective::AwaitCommand
                } else {
                    self.phase = WorkerPhase::Stepping { remaining: *steps };
                    WorkerDirective::RunFrame
                }
            },
            ThreadCommand::PAUSE => WorkerDirective::AwaitCommand,
            ThreadCommand::SHUTDOWN => {
                self.phase = WorkerPhase::Terminated;
                WorkerDirective::Exit
            },
        }
    }

    /// React to the initialization hook's outcome: report it (mapped) to
    /// the coordinator and return to awaiting commands.
    pub fn on_init_done(&mut self, status: &ConfigStatus) -> (r: ThreadResult)
        requires
            old(self).phase == WorkerPhase::Idle,
        ensures
            *final(self) == *old(self),
            r == spec_init_response(*status),
    {
        init_response(status)
    }

    /// React to a completed frame: report the mapped outcome, acknowledge a
    /// pending pause (abandoning the remaining frames), and compute the
    /// pacing sleep. The worker stays alive after a pause or after the last
    /// frame; only `SHUTDOWN` terminates it.
    pub fn on_frame_done(
        &mut self,
        status: &RunStatus,
        pause_pending: bool,
        elapsed_ns: u64,
    ) -> (a: FrameActions)
        requires
            old(self).phase is Stepping,
        ensures
            *final(self) == spec_worker_on_frame_done(
                *old(self),
                *status,
                pause_pending,
                elapsed_ns,
            ).0,
            a == spec_worker_on_frame_done(*old(self), *status, pause_pending, elapsed_ns).1,
    {
        let response = frame_response(status);
        let sleep_ns: u64 = if pause_pending || !self.pacing {
            0
        } else {
            pacing_sleep_ns(self.delta_ns, elapsed_ns)
        };
        if pause_pending {
            self.phase = WorkerPhase::Idle;
        } else {
            match self.phase {
                WorkerPhase::Stepping { remaining } => {
                    if remaining > 1 {
                        self.phase = WorkerPhase::Stepping { remaining: remaining - 1 };
                    } else {
                        self.phase = WorkerPhase::Idle;
                    }
                },
                _ => {
                },
            }
        }
        FrameActions { response, pause_ack: pause_pending, sleep_ns }
    }
}

/// The observable course of one `EXECUTE` request: starting from a stepping
/// machine, fold the per-frame hook outcomes and pause checks, collecting
/// the responses sent to the coordinator (frame bodies taken as instant;
/// pacing does not change what is sent).
pub open spec fn spec_run_frames(
    m: WorkerMachine,
    outcomes: Seq<RunStatus>,
    pauses: Seq<bool>,
) -> (WorkerMachine, Seq<ThreadResult>)
    decreases outcomes.len(),
{
    if !(m.phase is Stepping) || outcomes.len() == 0 {
        (m, Seq::empty())
    } else {
        let r = spec_worker_on_frame_done(m, outcomes[0], pauses[0], 0);
        let rest = spec_run_frames(r.0, outcomes.drop_first(), pauses.drop_first());
        (rest.0, seq![r.1.response] + rest.1)
    }
}

/// Without a pause, an `EXECUTE` request runs every requested frame: one
/// mapped response is sent per frame, in order — whatever the outcomes,
/// `STOP` and `ERR` included — and the worker returns to idle, alive.
pub proof fn lemma_execute_runs_all_frames(
    m: WorkerMachine,
    k: u64,
    outcomes: Seq<RunStatus>,
    pauses: Seq<bool>,
)
    requires
        m.phase == (WorkerPhase::Stepping { remaining: k }),
        k >= 1,
        outcomes.len() == k,
        pauses.len() == k,
        forall|i: int| 0 <= i < k ==> !pauses[i],
    ensures
        spec_run_frames(m, outcomes, pauses).0 == (WorkerMachine { phase: WorkerPhase::Idle, ..m }),
        spec_run_frames(m, outcomes, pauses).1 == outcomes.map(
            |i: int, s: RunStatus| spec_frame_response(s),
        ),
    decreases k,
{
    let r = spec_worker_on_frame_done(m, outcomes[0], pauses[0], 0);
    if k == 1 {
        assert(r.0.phase == WorkerPhase::Idle);
        assert(spec_run_frames(m, outcomes, pauses).1 =~= outcomes.map(
            |i: int, s: RunStatus| spec_frame_response(s),
        ));
    } else {
        lemma_execute_runs_all_frames(
            r.0,
            (k - 1) as u64,
            outcomes.drop_first(),
            pauses.drop_first(),
        );
        assert(spec_run_frames(m, outcomes, pauses).1 =~= outcomes.map(
            |i: int, s: RunStatus| spec_frame_response(s),
        ));
    }
}

/// A pause detected right after frame `p` (zero-based) stops the request
/// after exactly `p + 1` frames: their responses are all that is sent, the
/// remaining frames are abandoned, and the worker is back to idle — alive,
/// so a later `EXECUTE` enters the frame loop again.
pub proof fn lemma_pause_stops_execution(
    m: WorkerMachine,
    k: u64,
    outcomes: Seq<RunStatus>,
    pauses: Seq<bool>,
    p: int,
)
    requires
        m.phase == (WorkerPhase::Stepping { remaining: k }),
        outcomes.len() == k,
        pauses.len() == k,
        0 <= p < k,
        forall|i: int| 0 <= i < k ==> (pauses[i] <==> i == p),
    ensures
        spec_run_frames(m, outcomes, pauses).0 == (WorkerMachine { phase: WorkerPhase::Idle, ..m }),
        spec_run_frames(m, outcomes, pauses).1 == outcomes.take(p + 1).map(
            |i: int, s: RunStatus| spec_frame_response(s),
        ),
        forall|steps: u64|
            steps >= 1 ==> #[trigger] spec_worker_on_command(
                spec_run_frames(m, outcomes, pauses).0,
                ThreadCommand::EXECUTE(steps),
            ).0.phase == (WorkerPhase::Stepping { remaining: steps }),
    decreases k,
{
    let r = spec_worker_on_frame_done(m, outcomes[0], pauses[0], 0);
    if p == 0 {
        assert(r.0.phase == WorkerPhase::Idle);
        assert(spec_run_frames(m, outcomes, pauses).1 =~= outcomes.take(1).map(
            |i: int, s: RunStatus| spec_frame_response(s),
        ));
    } else {
        assert(!pauses[0]);
        assert(k >= 2);
        assert(r.0.phase == (WorkerPhase::Stepping { remaining: (k - 1) as u64 }));
        lemma_pause_stops_execution(
            r.0,
            (k - 1) as u64,
            outcomes.drop_first(),
            pauses.drop_first(),
            p - 1,
        );
        assert(outcomes.drop_first().take(p) =~= outcomes.take(p + 1).drop_first());
        assert(spec_run_frames(m, outcomes, pauses).1 =~= outcomes.take(p + 1).map(
            |i: int, s: RunStatus| spec_frame_response(s),
        ));
    }
}

/// `SHUTDOWN` terminates the worker: the machine reaches its terminal phase
/// and directs the thread to exit the loop.
pub proof fn lemma_shutdown_terminates_worker(m: WorkerMachine)
    ensures
        spec_worker_on_command(m, ThreadCommand::SHUTDOWN).0.phase == WorkerPhase::Terminated,
        spec_worker_on_command(m, ThreadCommand::SHUTDOWN).1 == WorkerDirective::Exit,
{
}

} // verus!
