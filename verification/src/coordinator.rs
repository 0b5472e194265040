//! The coordinator (runner): the single thread owning the authoritative
//! lifecycle state machine. It polls its inbound command queue, broadcasts
//! commands to the workers, aggregates their results and advances the
//! engine-wide state.
//!
//! The polling thread itself (the channels, the bounded sleep between
//! iterations, the joins) lives outside the library; it drives this machine
//! and performs exactly the broadcasts it returns.
//!
//! Design choices this machine fixes, where the lifecycle table leaves them
//! open: `SHUTDOWN` is honored and broadcast from every non-terminal state;
//! `PAUSE` while running is broadcast to the workers so their own pending
//! check can detect it; a worker's `ERR` while running is fatal (the engine
//! becomes `ERRORED`); a worker's `END` while running shuts the siblings
//! down (the engine passes through `ENDING` to `ENDED`).

use vstd::prelude::*;
use crate::messages::{ThreadCommand, ThreadResult};
use crate::state::EngineState;

verus! {

/// The mathematical state of the coordinator: the engine-wide lifecycle
/// value and one recorded phase per worker.
pub struct CoordView {
    pub state: EngineState,
    pub workers: Seq<EngineState>,
}

/// Whether every worker has reported a successful initialization.
pub open spec fn all_initialized(ws: Seq<EngineState>) -> bool {
    forall|i: int| 0 <= i < ws.len() ==> ws[i] == EngineState::INITIALIZED
}

/// The transition the coordinator makes on a caller command, and the
/// command it broadcasts to every worker, if any.
pub open spec fn spec_coord_on_command(c: CoordView, cmd: ThreadCommand) -> (
    CoordView,
    Option<ThreadCommand>,
) {
    match c.state {
        EngineState::CONFIG => match cmd {
            ThreadCommand::INIT => (
                (CoordView {
                    state: EngineState::INITIALIZING,
                    workers: Seq::new(c.workers.len(), |i: int| EngineState::INITIALIZING),
                }),
                Some(ThreadCommand::INIT),
            ),
            ThreadCommand::SHUTDOWN => (
                (CoordView { state: EngineState::ENDED, ..c }),
                Some(ThreadCommand::SHUTDOWN),
            ),
            _ => (c, None),
        },
        EngineState::INITIALIZING => match cmd {
            ThreadCommand::SHUTDOWN => (
                (CoordView { state: EngineState::ENDED, ..c }),
                Some(ThreadCommand::SHUTDOWN),
            ),
            _ => (c, None),
        },
        EngineState::INITIALIZED | EngineState::PAUSED => match cmd {
            ThreadCommand::EXECUTE(steps) => (
                (CoordView { state: EngineState::RUNNING, ..c }),
                Some(ThreadCommand::EXECUTE(steps)),
            ),
            ThreadCommand::SHUTDOWN => (
                (CoordView { state: EngineState::ENDED, ..c }),
                Some(ThreadCommand::SHUTDOWN),
            ),
            _ => (c, None),
        },
        EngineState::RUNNING => match cmd {
            ThreadCommand::SHUTDOWN => (
                (CoordView { state: EngineState::ENDING, ..c }),
                Some(ThreadCommand::SHUTDOWN),
            ),
            ThreadCommand::PAUSE => (
                (CoordView { state: EngineState::PAUSED, ..c }),
                Some(ThreadCommand::PAUSE),
            ),
            _ => (c, None),
        },
        EngineState::ENDING => match cmd {
            ThreadCommand::SHUTDOWN => (c, Some(ThreadCommand::SHUTDOWN)),
            _ => (c, None),
        },
        _ => (c, None),
    }
}

/// The transition the coordinator makes on one worker's result, and the
/// command it broadcasts, if any. Results arrive in no particular
/// cross-worker order; in a terminal state everything is ignored.
pub open spec fn spec_coord_on_result(c: CoordView, w: int, r: ThreadResult) -> (
    CoordView,
    Option<ThreadCommand>,
) {
    match c.state {
        EngineState::INITIALIZING => match r {
            ThreadResult::OK => {
                let ws = c.workers.update(w, EngineState::INITIALIZED);
                if all_initialized(ws) {
                    ((CoordView { state: EngineState::INITIALIZED, workers: ws }), None)
                } else {
                    ((CoordView { state: EngineState::INITIALIZING, workers: ws }), None)
                }
            },
            ThreadResult::ERR => ((CoordView { state: EngineState::ERRORED, ..c }), None),
            ThreadResult::END => ((CoordView { state: EngineState::ENDED, ..c }), None),
        },
        EngineState::RUNNING => match r {
            ThreadResult::OK => (c, None),
            ThreadResult::ERR => ((CoordView { state: EngineState::ERRORED, ..c }), None),
            ThreadResult::END => (
                (CoordView { state: EngineState::ENDING, ..c }),
                Some(ThreadCommand::SHUTDOWN),
            ),
        },
        _ => (c, None),
    }
}

/// The transition once every worker thread has been observed terminated:
/// `ENDING` finalizes to `ENDED`.
pub open spec fn spec_coord_on_terminated(c: CoordView) -> CoordView {
    if c.state == EngineState::ENDING {
        CoordView { state: EngineState::ENDED, ..c }
    } else {
        c
    }
}

/// The coordinator state machine. Fields mirror `CoordView`; `workers@`
/// is the view's worker sequence.
pub struct Coordinator {
    state: EngineState,
    workers: Vec<EngineState>,
}

impl View for Coordinator {
    type V = CoordView;

    closed spec fn view(&self) -> CoordView {
        CoordView { state: self.state, workers: self.workers@ }
    }
}

impl Coordinator {
    /// A fresh coordinator for `n` workers, in the configuration state.
    pub fn new(n: usize) -> (c: Coordinator)
        requires
            n >= 1,
        ensures
            c@.state == EngineState::CONFIG,
            c@.workers == Seq::new(n as nat, |i: int| EngineState::CONFIG),
    {
        let mut ws: Vec<EngineState> = Vec::new();
        let mut i: usize = 0;
        while i < n
            invariant
                i <= n,
                ws@.len() == i,
                forall|j: int| 0 <= j < i ==> ws@[j] == EngineState::CONFIG,
            decreases n - i,
        {
            ws.push(EngineState::CONFIG);
            i += 1;
        }
        proof {
            assert(ws@ =~= Seq::new(n as nat, |i: int| EngineState::CONFIG));
        }
        Coordinator { state: EngineState::CONFIG, workers: ws }
    }

    /// The fixed worker count this coordinator was built for.
    pub fn worker_count(&self) -> (n: usize)
        ensures
            n == self@.workers.len(),
    {
        self.workers.len()
    }

    /// The non-blocking read of the engine-wide lifecycle state.
    pub fn get_state(&self) -> (s: EngineState)
        ensures
            s == self@.state,
    {
        self.state
    }

    /// Handle one caller command; the result is the command to broadcast to
    /// every worker, if any.
    pub fn on_command(&mut self, cmd: &ThreadCommand) -> (b: Option<ThreadCommand>)
        ensures
            final(self)@ == spec_coord_on_command(old(self)@, *cmd).0,
            b == spec_coord_on_command(old(self)@, *cmd).1,
    {
        match self.state {
            EngineState::CONFIG => match cmd {
                ThreadCommand::INIT => {
                    let n = self.workers.len();
                    let mut ws: Vec<EngineState> = Vec::new();
                    let mut i: usize = 0;
                    while i < n
                        invariant
                            i <= n,
                            ws@.len() == i,
                            forall|j: int| 0 <= j < i ==> ws@[j] == EngineState::INITIALIZING,
                        decreases n - i,
                    {
                        ws.push(EngineState::INITIALIZING);
                        i += 1;
                    }
                    proof {
                        assert(ws@ =~= Seq::new(
                            old(self)@.workers.len(),
                            |i: int| EngineState::INITIALIZING,
                        ));
                    }
                    self.workers = ws;
                    self.state = EngineState::INITIALIZING;
                    Some(ThreadCommand::INIT)
                },
                ThreadCommand::SHUTDOWN => {
                    self.state = EngineState::ENDED;
                    Some(ThreadCommand::SHUTDOWN)
                },
                _ => None,
            },
            EngineState::INITIALIZING => match cmd {
                ThreadCommand::SHUTDOWN => {
                    self.state = EngineState::ENDED;
                    Some(ThreadCommand::SHUTDOWN)
                },
                _ => None,
            },
            EngineState::INITIALIZED | EngineState::PAUSED => match cmd {
                ThreadCommand::EXECUTE(steps) => {
                    self.state = EngineState::RUNNING;
                    Some(ThreadCommand::EXECUTE(*steps))
                },
                ThreadCommand::SHUTDOWN => {
                    self.state = EngineState::ENDED;
                    Some(ThreadCommand::SHUTDOWN)
                },
                _ => None,
            },
            EngineState::RUNNING => match cmd {
                ThreadCommand::SHUTDOWN => {
                    self.state = EngineState::ENDING;
                    Some(ThreadCommand::SHUTDOWN)
                },
                ThreadCommand::PAUSE => {
                    self.state = EngineState::PAUSED;
                    Some(ThreadCommand::PAUSE)
                },
                _ => None,
            },
            EngineState::ENDING => match cmd {
                ThreadCommand::SHUTDOWN => Some(ThreadCommand::SHUTDOWN),
                _ => None,
            },
            _ => None,
        }
    }

    /// Handle one worker's result; the result is the command to broadcast
    /// to every worker, if any.
    pub fn on_worker_result(&mut self, w: usize, r: &ThreadResult) -> (b: Option<ThreadCommand>)
        requires
            w < old(self)@.workers.len(),
        ensures
            final(self)@ == spec_coord_on_result(old(self)@, w as int, *r).0,
            b == spec_coord_on_result(old(self)@, w as int, *r).1,
    {
        match self.state {
            EngineState::INITIALIZING => match r {
                ThreadResult::OK => {
                    self.workers[w] = EngineState::INITIALIZED;
                    let n = self.workers.len();
                    let mut all = true;
                    let mut i: usize = 0;
                    while i < n
                        invariant
                            i <= n,
                            n == self.workers@.len(),
                            all == (forall|j: int|
                                0 <= j < i ==> self.workers@[j] == EngineState::INITIALIZED),
                        decreases n - i,
                    {
                        match self.workers[i] {
                            EngineState::INITIALIZED => {
                            },
                            _ => {
                                all = false;
                            },
                        }
                        i += 1;
                    }
                    if all {
                        self.state = EngineState::INITIALIZED;
                    }
                    None
                },
                ThreadResult::ERR => {
                    self.state = EngineState::ERRORED;
                    None
                },
                ThreadResult::END => {
                    self.state = EngineState::ENDED;
                    None
                },
            },
            EngineState::RUNNING => match r {
                ThreadResult::OK => None,
                ThreadResult::ERR => {
                    self.state = EngineState::ERRORED;
                    None
                },
                ThreadResult::END => {
                    self.state = EngineState::ENDING;
                    Some(ThreadCommand::SHUTDOWN)
                },
            },
            _ => None,
        }
    }

    /// Handle the observation that every worker thread has terminated.
    pub fn on_workers_terminated(&mut self)
        ensures
            final(self)@ == spec_coord_on_terminated(old(self)@),
    {
        match self.state {
            EngineState::ENDING => {
                self.state = EngineState::ENDED;
            },
            _ => {
            },
        }
    }
}

/// One input the coordinator consumes: a caller command, one worker's
/// result, or the observation that every worker thread has terminated.
#[derive(Copy, Clone, Debug, PartialEq, Eq, Structural)]
pub enum CoordEvent {
    Command(ThreadCommand),
    WorkerResult(usize, ThreadResult),
    WorkersTerminated,
}

/// The state after one event, ignoring the broadcast.
pub open spec fn spec_coord_step(c: CoordView, e: CoordEvent) -> CoordView {
    match e {
        CoordEvent::Command(cmd) => spec_coord_on_command(c, cmd).0,
        CoordEvent::WorkerResult(w, r) => spec_coord_on_result(c, w as int, r).0,
        CoordEvent::WorkersTerminated => spec_coord_on_terminated(c),
    }
}

/// The state after a whole sequence of events.
pub open spec fn spec_coord_run(c: CoordView, es: Seq<CoordEvent>) -> CoordView
    decreases es.len(),
{
    if es.len() == 0 {
        c
    } else {
        spec_coord_step(spec_coord_run(c, es.drop_last()), es.last())
    }
}

/// A terminal state absorbs every further event: once `ENDED` or `ERRORED`
/// is reached, no command or result changes anything.
pub proof fn lemma_terminal_absorbing(c: CoordView, es: Seq<CoordEvent>)
    requires
        c.state.is_terminal(),
    ensures
        spec_coord_run(c, es) == c,
    decreases es.len(),
{
    if es.len() > 0 {
        lemma_terminal_absorbing(c, es.drop_last());
    }
}

/// Running a concatenation of event sequences is running one after the
/// other.
pub proof fn lemma_run_append(c: CoordView, a: Seq<CoordEvent>, b: Seq<CoordEvent>)
    ensures
        spec_coord_run(c, a + b) == spec_coord_run(spec_coord_run(c, a), b),
    decreases b.len(),
{
    if b.len() == 0 {
        assert(a + b =~= a);
    } else {
        lemma_run_append(c, a, b.drop_last());
        assert((a + b).drop_last() =~= a + b.drop_last());
        assert((a + b).last() == b.last());
    }
}

/// An event that reports one worker's successful initialization.
pub open spec fn is_ok_result(e: CoordEvent, n: nat) -> bool {
    e matches CoordEvent::WorkerResult(w, r) && w < n && r == ThreadResult::OK
}

/// Every event of the sequence reports some worker's successful
/// initialization.
pub open spec fn ok_init_results(es: Seq<CoordEvent>, n: nat) -> bool {
    forall|k: int| 0 <= k < es.len() ==> is_ok_result(#[trigger] es[k], n)
}

/// Some event of the sequence is worker `w` reporting success.
pub open spec fn has_ok_result(es: Seq<CoordEvent>, w: usize) -> bool {
    exists|k: int|
        0 <= k < es.len() && #[trigger] es[k] == CoordEvent::WorkerResult(w, ThreadResult::OK)
}

/// While initializing, success results drained in any order mark exactly
/// the workers that reported, and the aggregate state is `INITIALIZED`
/// precisely once every worker has.
pub proof fn lemma_init_progress(c: CoordView, es: Seq<CoordEvent>)
    requires
        c.state == EngineState::INITIALIZING,
        1 <= c.workers.len() <= usize::MAX,
        forall|i: int| 0 <= i < c.workers.len() ==> c.workers[i] == EngineState::INITIALIZING,
        ok_init_results(es, c.workers.len()),
    ensures
        ({
            let c2 = spec_coord_run(c, es);
            &&& c2.workers.len() == c.workers.len()
            &&& forall|w: usize|
                w < c.workers.len() ==> (c2.workers[w as int] == EngineState::INITIALIZED
                    <==> #[trigger] has_ok_result(es, w))
            &&& c2.state == (if all_initialized(c2.workers) {
                EngineState::INITIALIZED
            } else {
                EngineState::INITIALIZING
            })
        }),
    decreases es.len(),
{
    let n = c.workers.len();
    if es.len() == 0 {
        assert(!all_initialized(spec_coord_run(c, es).workers)) by {
            assert(c.workers[0] == EngineState::INITIALIZING);
        }
    } else {
        let pre = es.drop_last();
        assert(ok_init_results(pre, n)) by {
            assert(forall|k: int| 0 <= k < pre.len() ==> pre[k] == es[k]);
        }
        lemma_init_progress(c, pre);
        let c1 = spec_coord_run(c, pre);
        let c2 = spec_coord_run(c, es);
        let e = es.last();
        assert(is_ok_result(e, n));
        match e {
            CoordEvent::WorkerResult(w, r) => {
                assert(r == ThreadResult::OK);
                assert(forall|k: int| 0 <= k < pre.len() ==> pre[k] == es[k]);
                assert(es[es.len() - 1] == CoordEvent::WorkerResult(w, ThreadResult::OK));

                // A success for `v` is in `es` exactly when it is in the
                // prefix or is the last event.
                assert forall|v: usize|
                    v < n implies (#[trigger] has_ok_result(es, v) <==> (has_ok_result(pre, v)
                    || v == w)) by {
                    if has_ok_result(es, v) {
                        let k = choose|k: int|
                            0 <= k < es.len() && #[trigger] es[k] == CoordEvent::WorkerResult(
                                v,
                                ThreadResult::OK,
                            );
                        if k < es.len() - 1 {
                            assert(pre[k] == CoordEvent::WorkerResult(v, ThreadResult::OK));
                            assert(has_ok_result(pre, v));
                        } else {
                            assert(v == w);
                        }
                    }
                    if has_ok_result(pre, v) {
                        let k = choose|k: int|
                            0 <= k < pre.len() && #[trigger] pre[k] == CoordEvent::WorkerResult(
                                v,
                                ThreadResult::OK,
                            );
                        assert(es[k] == CoordEvent::WorkerResult(v, ThreadResult::OK));
                        assert(has_ok_result(es, v));
                    }
                    if v == w {
                        assert(es[es.len() - 1] == CoordEvent::WorkerResult(v, ThreadResult::OK));
                        assert(has_ok_result(es, v));
                    }
                }
                if c1.state == EngineState::INITIALIZING {
                    assert(c2.workers == c1.workers.update(w as int, EngineState::INITIALIZED));
                    assert forall|v: usize|
                        v < n implies (c2.workers[v as int] == EngineState::INITIALIZED
                        <==> #[trigger] has_ok_result(es, v)) by {
                        assert(c1.workers[v as int] == EngineState::INITIALIZED
                            <==> has_ok_result(pre, v));
                        if v == w {
                            assert(c2.workers[v as int] == EngineState::INITIALIZED);
                        } else {
                            assert(c2.workers[v as int] == c1.workers[v as int]);
                        }
                    }
                } else {
                    assert(c1.state == EngineState::INITIALIZED);
                    assert(all_initialized(c1.workers));
                    assert(c2 == c1);
                    assert forall|v: usize|
                        v < n implies (c2.workers[v as int] == EngineState::INITIALIZED
                        <==> #[trigger] has_ok_result(es, v)) by {
                        assert(c1.workers[v as int] == EngineState::INITIALIZED
                            <==> has_ok_result(pre, v));
                        assert(c1.workers[v as int] == EngineState::INITIALIZED);
                    }
                }
            },
            _ => {
                assert(false);
            },
        }
    }
}

/// For an engine of any worker count: once `INIT` is accepted in the
/// configuration state, the engine is `INITIALIZING` and `INIT` is
/// broadcast; from then on, under success results only, the observed state
/// is `INITIALIZED` exactly from the point where every one of the workers
/// has reported success, and `INITIALIZING` before that.
pub proof fn lemma_initialize_all_ok(c0: CoordView, es: Seq<CoordEvent>)
    requires
        c0.state == EngineState::CONFIG,
        1 <= c0.workers.len() <= usize::MAX,
        ok_init_results(es, c0.workers.len()),
    ensures
        spec_coord_on_command(c0, ThreadCommand::INIT).1 == Some(ThreadCommand::INIT),
        spec_coord_on_command(c0, ThreadCommand::INIT).0.state == EngineState::INITIALIZING,
        forall|k: int|
            0 <= k <= es.len() ==> {
                let ck = spec_coord_run(
                    spec_coord_on_command(c0, ThreadCommand::INIT).0,
                    #[trigger] es.take(k),
                );
                (ck.state == EngineState::INITIALIZED <==> (forall|w: usize|
                    w < c0.workers.len() ==> #[trigger] has_ok_result(es.take(k), w)))
                    && (ck.state == EngineState::INITIALIZED || ck.state
                    == EngineState::INITIALIZING)
            },
{
    let n = c0.workers.len();
    let c1 = spec_coord_on_command(c0, ThreadCommand::INIT).0;
    assert forall|k: int| 0 <= k <= es.len() implies {
        let ck = spec_coord_run(c1, #[trigger] es.take(k));
        (ck.state == EngineState::INITIALIZED <==> (forall|w: usize|
            w < n ==> #[trigger] has_ok_result(es.take(k), w))) && (ck.state
            == EngineState::INITIALIZED || ck.state == EngineState::INITIALIZING)
    } by {
        let p = es.take(k);
        assert(ok_init_results(p, n)) by {
            assert(forall|j: int| 0 <= j < p.len() ==> p[j] == es[j]);
        }
        lemma_init_progress(c1, p);
        let ck = spec_coord_run(c1, p);
        if ck.state == EngineState::INITIALIZED {
            assert(all_initialized(ck.workers));
            assert forall|w: usize| w < n implies #[trigger] has_ok_result(p, w) by {
                assert(ck.workers[w as int] == EngineState::INITIALIZED);
            }
        }
        if forall|w: usize| w < n ==> #[trigger] has_ok_result(p, w) {
            assert forall|i: int| 0 <= i < ck.workers.len() implies ck.workers[i]
                == EngineState::INITIALIZED by {
                let v = i as usize;
                assert(has_ok_result(p, v));
                assert(ck.workers[v as int] == EngineState::INITIALIZED);
            }
            assert(all_initialized(ck.workers));
        }
    }
}

/// If any one worker fails initialization while the others (so far) have
/// only succeeded, the engine becomes `ERRORED` the moment the failure is
/// aggregated, stays `ERRORED` whatever arrives afterwards, and
/// `INITIALIZED` is never observed.
pub proof fn lemma_initialize_failure(c0: CoordView, es: Seq<CoordEvent>, j: int, wf: usize)
    requires
        c0.state == EngineState::CONFIG,
        1 <= c0.workers.len() <= usize::MAX,
        0 <= j < es.len(),
        es[j] == CoordEvent::WorkerResult(wf, ThreadResult::ERR),
        wf < c0.workers.len(),
        forall|k: int|
            0 <= k < j ==> is_ok_result(#[trigger] es[k], c0.workers.len()) && es[k]
                != CoordEvent::WorkerResult(wf, ThreadResult::OK),
    ensures
        forall|k: int|
            j < k <= es.len() ==> spec_coord_run(
                spec_coord_on_command(c0, ThreadCommand::INIT).0,
                #[trigger] es.take(k),
            ).state == EngineState::ERRORED,
        forall|k: int|
            0 <= k <= es.len() ==> spec_coord_run(
                spec_coord_on_command(c0, ThreadCommand::INIT).0,
                #[trigger] es.take(k),
            ).state != EngineState::INITIALIZED,
{
    let n = c0.workers.len();
    let c1 = spec_coord_on_command(c0, ThreadCommand::INIT).0;

    // Before the failure arrives, worker `wf` has not reported success, so
    // the engine is still `INITIALIZING`.
    assert forall|k: int| 0 <= k <= j implies spec_coord_run(c1, #[trigger] es.take(k)).state
        == EngineState::INITIALIZING by {
        let p = es.take(k);
        assert(ok_init_results(p, n)) by {
            assert(forall|i: int| 0 <= i < p.len() ==> p[i] == es[i]);
        }
        lemma_init_progress(c1, p);
        assert(!has_ok_result(p, wf)) by {
            assert(forall|i: int| 0 <= i < p.len() ==> p[i] == es[i]);
        }
        let ck = spec_coord_run(c1, p);
        assert(ck.workers[wf as int] != EngineState::INITIALIZED);
        assert(!all_initialized(ck.workers));
    }

    // The failure itself flips the state to `ERRORED`.
    let cj = spec_coord_run(c1, es.take(j));
    assert(es.take(j + 1).drop_last() =~= es.take(j));
    assert(es.take(j + 1).last() == es[j]);
    let ce = spec_coord_run(c1, es.take(j + 1));
    assert(ce.state == EngineState::ERRORED);

    // `ERRORED` is terminal; everything after is absorbed.
    assert forall|k: int| j < k <= es.len() implies spec_coord_run(
        c1,
        #[trigger] es.take(k),
    ).state == EngineState::ERRORED by {
        assert(es.take(k) =~= es.take(j + 1) + es.subrange(j + 1, k));
        lemma_run_append(c1, es.take(j + 1), es.subrange(j + 1, k));
        lemma_terminal_absorbing(ce, es.subrange(j + 1, k));
    }
}

/// `SHUTDOWN` from any non-terminal state is broadcast to every worker and
/// drives the engine to `ENDED`: directly when idle, through `ENDING` while
/// running, finalized once every worker thread has terminated.
pub proof fn lemma_shutdown_reaches_ended(c: CoordView)
    requires
        !c.state.is_terminal(),
    ensures
        spec_coord_on_command(c, ThreadCommand::SHUTDOWN).1 == Some(ThreadCommand::SHUTDOWN),
        spec_coord_on_command(c, ThreadCommand::SHUTDOWN).0.state == EngineState::ENDED
            || spec_coord_on_command(c, ThreadCommand::SHUTDOWN).0.state == EngineState::ENDING,
        spec_coord_on_terminated(spec_coord_on_command(c, ThreadCommand::SHUTDOWN).0).state
            == EngineState::ENDED,
{
}

/// The chosen policy for a model requesting termination mid-run: a worker's
/// `END` while running makes the coordinator broadcast `SHUTDOWN` to the
/// sibling workers and pass through `ENDING`, finalizing to `ENDED` once
/// every worker thread has terminated.
pub proof fn lemma_end_while_running(c: CoordView, w: usize)
    requires
        c.state == EngineState::RUNNING,
    ensures
        spec_coord_on_result(c, w as int, ThreadResult::END).0.state == EngineState::ENDING,
        spec_coord_on_result(c, w as int, ThreadResult::END).1 == Some(ThreadCommand::SHUTDOWN),
        spec_coord_on_terminated(spec_coord_on_result(c, w as int, ThreadResult::END).0).state
            == EngineState::ENDED,
{
}

} // verus!

