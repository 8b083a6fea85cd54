use codex_supervisor::protocol::RegisterRequest;
use codex_supervisor::query;
use codex_supervisor::query::{
    ControlTarget, ObservationStep, QueryRound, WorkerObservation, WorkerReply,
};
use codex_supervisor::registry::{SupervisorState, TerminationStep};
use codex_supervisor::types::{
    ActivityStatus, ProcessKind, ProcessMode, ProcessRecord, ProcessStatus, WorkerStatus,
};

fn record() -> ProcessRecord {
    ProcessRecord {
        id: 7,
        pid: 70,
        parent_pid: Some(1),
        kind: ProcessKind::Cli,
        status: ProcessStatus::Starting,
        activity: ActivityStatus::Idle,
        mode: ProcessMode::Default,
        summary: None,
        error: None,
        executable: "codex".to_string(),
        argv: vec!["exec".to_string()],
        cwd: ".".to_string(),
        thread_id: None,
        created_at: 1,
        last_observed_at: 2,
        last_state_update_at: 3,
        exit_code: None,
    }
}

fn status() -> WorkerStatus {
    WorkerStatus {
        thread_id: Some("thread-7".to_string()),
        activity: ActivityStatus::ExecutingTool,
        mode: ProcessMode::Plan,
        summary: Some("cargo test".to_string()),
        error: Some("previous attempt failed".to_string()),
        updated_at: 17,
    }
}

#[test]
fn status_observation_merges_worker_state_into_the_record() {
    let mut actual = record();
    let mut expected = actual.clone();
    expected.status = ProcessStatus::Running;
    expected.activity = ActivityStatus::ExecutingTool;
    expected.mode = ProcessMode::Plan;
    expected.summary = Some("cargo test".to_string());
    expected.error = Some("previous attempt failed".to_string());
    expected.thread_id = Some("thread-7".to_string());
    expected.last_observed_at = 20;
    expected.last_state_update_at = 20;

    query::apply_observation(&mut actual, WorkerObservation::Status(status()), 20);

    assert_eq!(actual, expected);
}

#[test]
fn unresponsive_observation_preserves_last_worker_state() {
    let mut actual = record();
    actual.status = ProcessStatus::Running;
    actual.activity = ActivityStatus::Thinking;
    actual.mode = ProcessMode::Plan;
    actual.summary = Some("generating plan".to_string());
    actual.error = Some("last agent error".to_string());
    actual.thread_id = Some("thread-7".to_string());
    actual.last_state_update_at = 15;
    let mut expected = actual.clone();
    expected.status = ProcessStatus::Unresponsive;
    expected.last_observed_at = 30;

    query::apply_observation(
        &mut actual,
        WorkerObservation::Unresponsive("control channel closed".to_string()),
        30,
    );

    assert_eq!(actual, expected);
}

#[test]
fn exited_observation_wins_over_a_previous_lifecycle_state() {
    let mut actual = record();
    actual.status = ProcessStatus::Stopping;
    let mut expected = actual.clone();
    expected.status = ProcessStatus::Exited;
    expected.last_observed_at = 40;

    query::apply_observation(&mut actual, WorkerObservation::Exited, 40);

    assert_eq!(actual, expected);
}

fn request(id: Option<u128>, lease_token: Option<u128>, pid: u32) -> RegisterRequest {
    RegisterRequest {
        id,
        lease_token,
        pid,
        parent_pid: None,
        kind: ProcessKind::Tui,
        executable: "codex".to_string(),
        argv: Vec::new(),
        cwd: "/work".to_string(),
        thread_id: None,
        worker_endpoint: "/run/worker.sock".to_string(),
        worker_token: "secret".to_string(),
    }
}

fn registered(pid: u32) -> (SupervisorState, u128, u128) {
    let mut state = SupervisorState::new(1);
    let response = state.register_process(request(None, None, pid), 11, 12, 100);
    assert_eq!(
        response,
        Ok(codex_supervisor::protocol::Response::Registered {
            id: 11,
            lease_token: 12,
            protocol_version: Some(2),
        })
    );
    (state, 11, 12)
}

#[test]
fn unregistering_takes_the_lease() {
    let (mut state, id, token) = registered(50);
    assert_eq!(
        state.unregister(id, token + 1),
        Err(
            "supervisor lease token mismatch for 00000000-0000-0000-0000-00000000000b".to_string()
        )
    );
    assert_eq!(query::take_snapshot(&state).processes.len(), 1);
    assert!(state.unregister(id, token).is_ok());
    assert_eq!(query::take_snapshot(&state).processes.len(), 0);
    assert_eq!(
        state.unregister(id, token),
        Err(
            "supervisor lease 00000000-0000-0000-0000-00000000000b no longer exists".to_string()
        )
    );
}

#[test]
fn registering_draws_fresh_identities() {
    let mut state = SupervisorState::new(1);
    assert!(state.register(request(None, None, 60)).is_ok());
    assert!(state.register(request(None, None, 61)).is_ok());
    let snapshot = query::take_snapshot(&state);
    assert_eq!(snapshot.processes.len(), 2);
    assert_ne!(snapshot.processes[0].id, snapshot.processes[1].id);
    assert!(snapshot.processes[0].id < snapshot.processes[1].id);
    assert_eq!(snapshot.daemon_pid, 1);
    assert_eq!(snapshot.protocol_version, 2);
    assert!(snapshot.processes[0].created_at > 1_600_000_000);
}

#[test]
fn stale_observation_is_dropped() {
    let (mut state, id, _) = registered(50);
    let mut target = query::target_for_process(&state, id).expect("target");
    assert!(query::target_is_current(&state, &target));
    target.pid = 51;
    assert!(!query::target_is_current(&state, &target));
    query::apply_target_observation(&mut state, &target, WorkerObservation::Exited, 500);
    let snapshot = query::take_snapshot(&state);
    assert_eq!(snapshot.processes[0].status, ProcessStatus::Running);
    assert_eq!(snapshot.processes[0].last_observed_at, 100);
    assert_eq!(
        query::target_for_process(&state, 99),
        Err("supervisor process 00000000-0000-0000-0000-000000000063 not found".to_string())
    );
}

#[test]
fn round_asks_a_bounded_number_at_a_time() {
    let mut state = SupervisorState::new(1);
    for pid in 0..20u32 {
        assert!(state
            .register_process(request(None, None, 100 + pid), 1 + pid as u128, 7, 100)
            .is_ok());
    }
    let targets = query::query_targets(&state);
    assert_eq!(targets.len(), 20);
    let mut round = QueryRound::new(targets.clone());
    let mut asked = Vec::new();
    while let Some(target) = round.start_next() {
        asked.push(target.id);
    }
    assert_eq!(asked.len(), 8);
    round.finish(asked[0], WorkerObservation::Exited);
    assert!(round.start_next().is_some());
    assert!(round.start_next().is_none());
    assert!(!round.is_complete());
    let snapshot = query::settle_round(&mut state, &targets, &round.observations, true, 900);
    assert_eq!(snapshot.processes[0].status, ProcessStatus::Exited);
    assert_eq!(snapshot.processes[1].status, ProcessStatus::Unresponsive);
    assert_eq!(snapshot.processes[19].status, ProcessStatus::Unresponsive);
    assert_eq!(snapshot.processes[19].last_observed_at, 900);
}

#[test]
fn silence_keeps_the_last_report_and_exit_is_final() {
    let (mut state, id, _) = registered(50);
    let target = query::target_for_process(&state, id).expect("target");
    query::apply_target_observation(&mut state, &target, WorkerObservation::Status(status()), 200);
    query::apply_target_observation(
        &mut state,
        &target,
        WorkerObservation::Unresponsive("gone".to_string()),
        300,
    );
    let snapshot = query::take_snapshot(&state);
    assert_eq!(snapshot.processes[0].status, ProcessStatus::Unresponsive);
    assert_eq!(snapshot.processes[0].summary, Some("cargo test".to_string()));
    assert_eq!(snapshot.processes[0].last_state_update_at, 200);
    query::apply_target_observation(&mut state, &target, WorkerObservation::Exited, 400);
    query::apply_target_observation(&mut state, &target, WorkerObservation::Starting, 500);
    assert_eq!(query::take_snapshot(&state).processes[0].status, ProcessStatus::Exited);
}

#[test]
fn observation_follows_from_what_is_known() {
    assert_eq!(
        query::observe_process(false, &ControlTarget::Pending),
        ObservationStep::Known(WorkerObservation::Exited)
    );
    assert_eq!(
        query::observe_process(true, &ControlTarget::Pending),
        ObservationStep::Known(WorkerObservation::Starting)
    );
    assert_eq!(
        query::observe_process(true, &ControlTarget::Missing),
        ObservationStep::Known(WorkerObservation::Unresponsive(
            "worker control channel is missing".to_string()
        ))
    );
    assert_eq!(
        query::observation_from_reply(WorkerReply::TimedOut),
        WorkerObservation::Unresponsive(
            "worker status query timed out after 2 seconds".to_string()
        )
    );
    assert_eq!(
        query::observation_from_reply(WorkerReply::Failed("closed".to_string())),
        WorkerObservation::Unresponsive("worker status query failed: closed".to_string())
    );
}

#[test]
fn termination_checks_that_the_process_is_still_the_same() {
    let (mut state, id, _) = registered(50);
    assert_eq!(
        state.begin_termination(id),
        Ok(TerminationStep::CheckAlive { pid: 50 })
    );
    assert_eq!(
        state.begin_termination(77),
        Err("supervisor process 00000000-0000-0000-0000-00000000004d not found".to_string())
    );
    assert_eq!(
        state.termination_verified(id, 51),
        Err(
            "supervisor process 00000000-0000-0000-0000-00000000000b changed during termination"
                .to_string()
        )
    );
    assert_eq!(
        state.termination_verified(77, 50),
        Err(
            "supervisor process 00000000-0000-0000-0000-00000000004d disappeared during termination"
                .to_string()
        )
    );
    assert_eq!(state.termination_verified(id, 50), Ok(()));
    assert_eq!(query::take_snapshot(&state).processes[0].status, ProcessStatus::Stopping);
    assert!(state.termination_found_exited(id, 50, 600).is_ok());
    assert_eq!(query::take_snapshot(&state).processes[0].status, ProcessStatus::Exited);
    state.worker_exited(id, Some(3), 700);
    assert_eq!(query::take_snapshot(&state).processes[0].exit_code, Some(3));
}
