use rsis::{
    ConfigStatus, Coordinator, EngineState, FrameActions, RunStatus, ThreadCommand, ThreadResult,
    ThreadTime, WorkerDirective, WorkerMachine, WorkerPhase,
};

#[test]
fn it_works() {
    assert_eq!(4, 4);
}

/// Drive one worker machine through `steps` frames, all hooks returning the
/// given status, with no pause; returns the responses produced.
fn run_frames(m: &mut WorkerMachine, status: RunStatus, steps: u64) -> Vec<ThreadResult> {
    let mut out = Vec::new();
    let mut frames = 0u64;
    while matches!(m.phase, WorkerPhase::Stepping { .. }) && frames < steps + 1 {
        let a: FrameActions = m.on_frame_done(&status, false, 0);
        out.push(a.response);
        assert!(!a.pause_ack);
        frames += 1;
    }
    assert_eq!(frames, steps);
    out
}

#[test]
fn initialize_all_ok_reaches_initialized() {
    // Three contexts, all succeeding: CONFIG -> INITIALIZING, and
    // INITIALIZED only once all three OK results are aggregated.
    let mut c = Coordinator::new(3);
    assert_eq!(c.get_state(), EngineState::CONFIG);
    let b = c.on_command(&ThreadCommand::INIT);
    assert_eq!(b, Some(ThreadCommand::INIT));
    assert_eq!(c.get_state(), EngineState::INITIALIZING);

    // Results drain out of order.
    assert_eq!(c.on_worker_result(2, &ThreadResult::OK), None);
    assert_eq!(c.get_state(), EngineState::INITIALIZING);
    assert_eq!(c.on_worker_result(0, &ThreadResult::OK), None);
    assert_eq!(c.get_state(), EngineState::INITIALIZING);
    assert_eq!(c.on_worker_result(1, &ThreadResult::OK), None);
    assert_eq!(c.get_state(), EngineState::INITIALIZED);
}

#[test]
fn initialize_failure_reaches_errored() {
    // One of three contexts fails: terminal state is ERRORED and
    // INITIALIZED is never observed.
    let mut c = Coordinator::new(3);
    c.on_command(&ThreadCommand::INIT);
    assert_eq!(c.on_worker_result(0, &ThreadResult::OK), None);
    assert_eq!(c.get_state(), EngineState::INITIALIZING);
    assert_eq!(c.on_worker_result(1, &ThreadResult::ERR), None);
    assert_eq!(c.get_state(), EngineState::ERRORED);
    // A straggler's result and further commands change nothing.
    assert_eq!(c.on_worker_result(2, &ThreadResult::OK), None);
    assert_eq!(c.get_state(), EngineState::ERRORED);
    assert_eq!(c.on_command(&ThreadCommand::EXECUTE(5)), None);
    assert_eq!(c.get_state(), EngineState::ERRORED);
}

#[test]
fn execute_zero_frames_is_a_no_op() {
    let mut m = WorkerMachine::new(false, 0);
    assert_eq!(
        m.on_command(&ThreadCommand::EXECUTE(0)),
        WorkerDirective::AwaitCommand
    );
    assert_eq!(m.phase, WorkerPhase::Idle);
}

#[test]
fn worker_maps_init_outcomes() {
    let mut m = WorkerMachine::new(false, 0);
    assert_eq!(m.on_command(&ThreadCommand::INIT), WorkerDirective::RunInit);
    assert_eq!(m.on_init_done(&ConfigStatus::OK), ThreadResult::OK);
    assert_eq!(m.on_init_done(&ConfigStatus::ERR), ThreadResult::ERR);
    assert_eq!(m.on_init_done(&ConfigStatus::CONTINUE), ThreadResult::ERR);
    assert_eq!(m.phase, WorkerPhase::Idle);
}

#[test]
fn worker_maps_frame_outcomes() {
    let mut m = WorkerMachine::new(false, 0);
    assert_eq!(
        m.on_command(&ThreadCommand::EXECUTE(3)),
        WorkerDirective::RunFrame
    );
    let a = m.on_frame_done(&RunStatus::OK, false, 0);
    assert_eq!(a.response, ThreadResult::OK);
    let a = m.on_frame_done(&RunStatus::STOP, false, 0);
    assert_eq!(a.response, ThreadResult::END);
    // A STOP does not leave the frame loop; the third frame still runs.
    assert_eq!(m.phase, WorkerPhase::Stepping { remaining: 1 });
    let a = m.on_frame_done(&RunStatus::ERR, false, 0);
    assert_eq!(a.response, ThreadResult::ERR);
    assert_eq!(m.phase, WorkerPhase::Idle);
}

#[test]
fn pacing_sleep_fills_the_frame_delta() {
    // 50 ms frame delta, negligible step bodies: 20 frames pace to 1.0 s.
    let delta_ns: u64 = 50_000_000;
    let mut total: u64 = 0;
    for _ in 0..20 {
        total += rsis::pacing_sleep_ns(delta_ns, 0);
    }
    assert_eq!(total, 1_000_000_000);
    // A frame that overran its delta gets no sleep and no compensation.
    assert_eq!(rsis::pacing_sleep_ns(delta_ns, 50_000_001), 0);
    assert_eq!(rsis::pacing_sleep_ns(delta_ns, 49_999_999), 1);
}

#[test]
fn pacing_disabled_never_sleeps() {
    let mut m = WorkerMachine::new(false, 50_000_000);
    m.on_command(&ThreadCommand::EXECUTE(2));
    let a = m.on_frame_done(&RunStatus::OK, false, 7_000_000);
    assert_eq!(a.sleep_ns, 0);
    let a = m.on_frame_done(&RunStatus::OK, false, 0);
    assert_eq!(a.sleep_ns, 0);
}

#[test]
fn pacing_enabled_sleeps_to_the_delta() {
    let mut m = WorkerMachine::new(true, 50_000_000);
    m.on_command(&ThreadCommand::EXECUTE(1));
    let a = m.on_frame_done(&RunStatus::OK, false, 10_000_000);
    assert_eq!(a.sleep_ns, 40_000_000);
}

#[test]
fn pause_mid_execution_stops_and_resumes() {
    // Pause detected after frame 3 of an EXECUTE(10): four frames run, the
    // worker stays alive, and a later EXECUTE(5) resumes normally.
    let mut m = WorkerMachine::new(false, 0);
    assert_eq!(
        m.on_command(&ThreadCommand::EXECUTE(10)),
        WorkerDirective::RunFrame
    );
    let mut frames = 0u64;
    for _ in 0..3 {
        let a = m.on_frame_done(&RunStatus::OK, false, 0);
        assert_eq!(a.response, ThreadResult::OK);
        assert!(!a.pause_ack);
        frames += 1;
    }
    let a = m.on_frame_done(&RunStatus::OK, true, 0);
    frames += 1;
    assert!(a.pause_ack);
    assert_eq!(a.sleep_ns, 0);
    assert_eq!(frames, 4);
    assert_eq!(m.phase, WorkerPhase::Idle);

    // The coordinator records the pause.
    let mut c = Coordinator::new(1);
    c.on_command(&ThreadCommand::INIT);
    c.on_worker_result(0, &ThreadResult::OK);
    c.on_command(&ThreadCommand::EXECUTE(10));
    assert_eq!(c.get_state(), EngineState::RUNNING);
    assert_eq!(
        c.on_command(&ThreadCommand::PAUSE),
        Some(ThreadCommand::PAUSE)
    );
    assert_eq!(c.get_state(), EngineState::PAUSED);

    // Resume: EXECUTE(5) runs five more frames.
    assert_eq!(
        c.on_command(&ThreadCommand::EXECUTE(5)),
        Some(ThreadCommand::EXECUTE(5))
    );
    assert_eq!(c.get_state(), EngineState::RUNNING);
    assert_eq!(
        m.on_command(&ThreadCommand::EXECUTE(5)),
        WorkerDirective::RunFrame
    );
    let out = run_frames(&mut m, RunStatus::OK, 5);
    assert_eq!(out.len(), 5);
    assert_eq!(m.phase, WorkerPhase::Idle);
}

#[test]
fn shutdown_from_any_nonterminal_state_ends() {
    // From CONFIG.
    let mut c = Coordinator::new(2);
    assert_eq!(
        c.on_command(&ThreadCommand::SHUTDOWN),
        Some(ThreadCommand::SHUTDOWN)
    );
    assert_eq!(c.get_state(), EngineState::ENDED);

    // From INITIALIZED.
    let mut c = Coordinator::new(2);
    c.on_command(&ThreadCommand::INIT);
    c.on_worker_result(0, &ThreadResult::OK);
    c.on_worker_result(1, &ThreadResult::OK);
    assert_eq!(
        c.on_command(&ThreadCommand::SHUTDOWN),
        Some(ThreadCommand::SHUTDOWN)
    );
    assert_eq!(c.get_state(), EngineState::ENDED);

    // From RUNNING: through ENDING, finalized once the workers terminated.
    let mut c = Coordinator::new(2);
    c.on_command(&ThreadCommand::INIT);
    c.on_worker_result(0, &ThreadResult::OK);
    c.on_worker_result(1, &ThreadResult::OK);
    c.on_command(&ThreadCommand::EXECUTE(100));
    assert_eq!(
        c.on_command(&ThreadCommand::SHUTDOWN),
        Some(ThreadCommand::SHUTDOWN)
    );
    assert_eq!(c.get_state(), EngineState::ENDING);
    c.on_workers_terminated();
    assert_eq!(c.get_state(), EngineState::ENDED);

    // Every worker receiving SHUTDOWN terminates.
    let mut m = WorkerMachine::new(false, 0);
    assert_eq!(
        m.on_command(&ThreadCommand::SHUTDOWN),
        WorkerDirective::Exit
    );
    assert_eq!(m.phase, WorkerPhase::Terminated);
}

#[test]
fn single_worker_five_frame_scenario() {
    // N=1, context always OK: initialize, then execute(5); observed states
    // CONFIG, INITIALIZING, INITIALIZED, RUNNING; five frame completions.
    let mut c = Coordinator::new(1);
    let mut m = WorkerMachine::new(false, 0);
    let mut observed = vec![c.get_state()];

    let b = c.on_command(&ThreadCommand::INIT);
    observed.push(c.get_state());
    assert_eq!(m.on_command(&b.unwrap()), WorkerDirective::RunInit);
    let r = m.on_init_done(&ConfigStatus::OK);
    c.on_worker_result(0, &r);
    observed.push(c.get_state());

    let b = c.on_command(&ThreadCommand::EXECUTE(5));
    observed.push(c.get_state());
    assert_eq!(m.on_command(&b.unwrap()), WorkerDirective::RunFrame);
    let out = run_frames(&mut m, RunStatus::OK, 5);

    assert_eq!(
        observed,
        vec![
            EngineState::CONFIG,
            EngineState::INITIALIZING,
            EngineState::INITIALIZED,
            EngineState::RUNNING,
        ]
    );
    assert_eq!(out, vec![ThreadResult::OK; 5]);
    for r in out {
        assert_eq!(c.on_worker_result(0, &r), None);
        assert_eq!(c.get_state(), EngineState::RUNNING);
    }
}

#[test]
fn stop_request_shuts_the_engine_down() {
    // N=2, worker 1's step returns STOP on its third call of EXECUTE(10):
    // worker 1 reports END; the chosen policy broadcasts SHUTDOWN to the
    // siblings and the engine terminates in ENDED.
    let mut c = Coordinator::new(2);
    let mut w0 = WorkerMachine::new(false, 0);
    let mut w1 = WorkerMachine::new(false, 0);
    let b = c.on_command(&ThreadCommand::INIT).unwrap();
    w0.on_command(&b);
    w1.on_command(&b);
    c.on_worker_result(0, &w0.on_init_done(&ConfigStatus::OK));
    c.on_worker_result(1, &w1.on_init_done(&ConfigStatus::OK));
    let b = c.on_command(&ThreadCommand::EXECUTE(10)).unwrap();
    w0.on_command(&b);
    w1.on_command(&b);
    assert_eq!(c.get_state(), EngineState::RUNNING);

    for frame in 0..3u64 {
        let a0 = w0.on_frame_done(&RunStatus::OK, false, 0);
        assert_eq!(c.on_worker_result(0, &a0.response), None);
        let status = if frame == 2 { RunStatus::STOP } else { RunStatus::OK };
        let a1 = w1.on_frame_done(&status, false, 0);
        if frame == 2 {
            assert_eq!(a1.response, ThreadResult::END);
            assert_eq!(
                c.on_worker_result(1, &a1.response),
                Some(ThreadCommand::SHUTDOWN)
            );
        } else {
            assert_eq!(c.on_worker_result(1, &a1.response), None);
        }
    }
    assert_eq!(c.get_state(), EngineState::ENDING);
    c.on_workers_terminated();
    assert_eq!(c.get_state(), EngineState::ENDED);
}

#[test]
fn barrier_traces_keep_lock_step() {
    // Two workers: a trace the barrier can produce never lets one worker
    // run a full frame ahead; frame counts stay within one of each other.
    let counts = rsis::check_trace(&vec![0, 1, 1, 0, 0, 1], 2).unwrap();
    assert_eq!(counts, vec![3, 3]);
    let counts = rsis::check_trace(&vec![1, 0, 0], 2).unwrap();
    assert_eq!(counts, vec![2, 1]);
    // A worker cannot arrive for its next frame before everyone finished
    // the current one: the barrier would still be holding it.
    assert!(rsis::check_trace(&vec![0, 0], 2).is_none());
    assert!(rsis::check_trace(&vec![0, 1, 0, 0], 2).is_none());
    // An unknown worker identity is no barrier party.
    assert!(rsis::check_trace(&vec![2], 2).is_none());
    // Three workers in lock-step across two frames.
    let counts = rsis::check_trace(&vec![2, 0, 1, 1, 2, 0], 3).unwrap();
    assert_eq!(counts, vec![2, 2, 2]);
}

#[test]
fn thread_time_default_is_zero() {
    let t = ThreadTime::default();
    assert_eq!(t.delta_ns, 0);
    assert_eq!(t.tick, 0);
}

#[test]
fn terminal_states_are_terminal() {
    assert!(EngineState::ENDED.terminal());
    assert!(EngineState::ERRORED.terminal());
    assert!(!EngineState::CONFIG.terminal());
    assert!(!EngineState::RUNNING.terminal());
    assert!(!EngineState::ENDING.terminal());
}
