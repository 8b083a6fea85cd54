use codex_supervisor::client::{
    daemon_command_line, next_start_step, quote_windows_arg, ProcessFacts, Registration, StartStep,
    SupervisorClient, SupervisorLease, WorkerSpec,
};
use codex_supervisor::clock::{timestamp, unix_seconds};
use codex_supervisor::daemon::{authenticate, handle_request, into_response, RequestStep};
use codex_supervisor::identity::{self, ProcessArg, WorkerIdentity, SUPERVISOR_WORKER_ARG};
use codex_supervisor::process::{
    needs_own_group, plan_spawn, probe_shows_life, signal_target, system_pid,
};
use codex_supervisor::protocol::{
    Envelope, RegisterRequest, Request, Response, SpawnWorkerRequest, WorkRequest, WorkerEnvelope,
    WorkerRequest, WorkerResponse,
};
use codex_supervisor::query;
use codex_supervisor::registry::SupervisorState;
use codex_supervisor::reporter::SupervisorReporter;
use codex_supervisor::transport::{
    decode_length, encode_frame, endpoint_for_codex_home, stored_token, token_file_for_codex_home,
    token_of_another, windows_pipe_name, windows_token_file_for_codex_home,
    windows_worker_pipe_name, worker_endpoint_for_codex_home,
};
use codex_supervisor::types::{
    ProcessKind, ProcessStatus, SupervisorSnapshot, WorkPage, WorkSection,
};
use codex_supervisor::worker::handle_worker_request;
use codex_supervisor::MAX_FRAME_SIZE;

const ID_5: &str = "00000000-0000-0000-0000-000000000005";

fn text(value: &str) -> ProcessArg {
    ProcessArg::Text(value.to_string())
}

fn registration(id: Option<u128>, lease_token: Option<u128>) -> RegisterRequest {
    RegisterRequest {
        id,
        lease_token,
        pid: 50,
        parent_pid: None,
        kind: ProcessKind::Tui,
        executable: "codex".to_string(),
        argv: vec![],
        cwd: "/workspace".to_string(),
        thread_id: None,
        worker_endpoint: "/home/supervisor/worker.sock".to_string(),
        worker_token: "secret".to_string(),
    }
}

fn spawn() -> SpawnWorkerRequest {
    SpawnWorkerRequest {
        executable: "/bin/codex".to_string(),
        args: vec!["exec".to_string()],
        cwd: "/workspace".to_string(),
        kind: ProcessKind::Cli,
        thread_id: None,
    }
}

#[test]
fn frames_read_back() {
    let payload: Vec<u8> = (0..=255u8).cycle().take(70000).collect();
    let frame = encode_frame(&payload).expect("payload fits");
    let header: [u8; 4] = [frame[0], frame[1], frame[2], frame[3]];
    assert_eq!(header, 70000u32.to_le_bytes());
    assert_eq!(decode_length(&header), Ok(70000));
    assert_eq!(frame[4..], payload[..]);
    assert_eq!(encode_frame(&vec![]), Ok(vec![0, 0, 0, 0]));
}

#[test]
fn oversized_frames_are_refused() {
    let told = "supervisor frame exceeds 1048576 bytes".to_string();
    assert_eq!(encode_frame(&vec![0; MAX_FRAME_SIZE + 1]), Err(told.clone()));
    assert_eq!(encode_frame(&vec![0; MAX_FRAME_SIZE]).expect("payload fits").len(), MAX_FRAME_SIZE + 4);
    assert_eq!(decode_length(&1048577u32.to_le_bytes()), Err(told.clone()));
    assert_eq!(decode_length(&[255, 255, 255, 255]), Err(told));
    assert_eq!(decode_length(&1048576u32.to_le_bytes()), Ok(1048576));
}

#[test]
fn every_home_directory_has_its_places() {
    assert_eq!(endpoint_for_codex_home("/home/me/.codex"), "/home/me/.codex/supervisor/supervisor.sock");
    assert_eq!(
        worker_endpoint_for_codex_home("/home/me/.codex/", 5),
        format!("/home/me/.codex/supervisor/worker-{ID_5}.sock")
    );
    assert_eq!(token_file_for_codex_home("/h"), "/h/supervisor/auth.token");
    assert_eq!(
        windows_token_file_for_codex_home(r"C:\h"),
        r"C:\h\supervisor\auth.token"
    );
    assert_eq!(windows_token_file_for_codex_home("C:"), r"C:supervisor\auth.token");
    assert_eq!(windows_pipe_name(0xab), r"\\.\pipe\codex-supervisor-00000000000000ab");
    assert_eq!(
        windows_worker_pipe_name(0xab, 5),
        format!(r"\\.\pipe\codex-supervisor-worker-00000000000000ab-{ID_5}")
    );
}

#[test]
fn tokens_are_read_without_white_space() {
    assert_eq!(stored_token(" abc\n"), Some("abc".to_string()));
    assert_eq!(stored_token(" \n\t"), None);
    assert_eq!(token_of_another("/t", "abc\n"), Ok("abc".to_string()));
    assert_eq!(token_of_another("/t", ""), Err("codex supervisor token /t is empty".to_string()));
}

fn client() -> SupervisorClient {
    SupervisorClient::connect_at("/home/me", "abc\n").expect("token is there")
}

fn facts() -> ProcessFacts {
    ProcessFacts {
        pid: 50,
        parent_pid: Some(1),
        kind: ProcessKind::Tui,
        executable: "codex".to_string(),
        cwd: "/workspace".to_string(),
        thread_id: Some("thread-1".to_string()),
    }
}

#[test]
fn client_needs_a_token() {
    assert_eq!(
        client(),
        SupervisorClient {
            endpoint: "/home/me/supervisor/supervisor.sock".to_string(),
            token: "abc".to_string(),
            codex_home: "/home/me".to_string(),
        }
    );
    assert_eq!(
        SupervisorClient::connect_at("/home/me", " "),
        Err("codex supervisor token is empty".to_string())
    );
}

#[test]
fn registration_names_the_process() {
    let args = vec![text("codex"), text("resume"), ProcessArg::NonUtf8(vec![0xff])];
    let request = client()
        .registration_request(facts(), &args, 5, 6, "secret".to_string())
        .expect("arguments are ordinary");
    assert_eq!(
        request,
        RegisterRequest {
            id: Some(5),
            lease_token: Some(6),
            pid: 50,
            parent_pid: Some(1),
            kind: ProcessKind::Tui,
            executable: "codex".to_string(),
            argv: vec!["resume".to_string(), "\u{fffd}".to_string()],
            cwd: "/workspace".to_string(),
            thread_id: Some("thread-1".to_string()),
            worker_endpoint: format!("/home/me/supervisor/worker-{ID_5}.sock"),
            worker_token: "secret".to_string(),
        }
    );
}

#[test]
fn started_worker_registers_as_itself() {
    let worker = WorkerIdentity { id: 8, lease_token: 9 };
    let mut args = vec![text("codex")];
    args.extend(identity::worker_args(worker, &vec!["exec".to_string()]).into_iter().map(ProcessArg::Text));
    let request = client()
        .registration_request(facts(), &args, 5, 6, "secret".to_string())
        .expect("arguments are ordinary");
    assert_eq!((request.id, request.lease_token), (Some(8), Some(9)));
    assert_eq!(request.argv, vec!["exec".to_string()]);
    let broken = vec![text("codex"), text(SUPERVISOR_WORKER_ARG)];
    assert!(client().registration_request(facts(), &broken, 5, 6, String::new()).is_err());
}

#[test]
fn supervisor_of_another_version_is_refused() {
    let lease = SupervisorLease { id: 5, lease_token: 6 };
    let answer = |protocol_version| Response::Registered { id: 5, lease_token: 6, protocol_version };
    assert_eq!(SupervisorClient::registration_outcome(answer(Some(2))), Registration::Accepted(lease));
    assert_eq!(
        SupervisorClient::registration_outcome(answer(Some(3))),
        Registration::Incompatible {
            lease,
            message: "incompatible codex supervisor protocol: expected 2, got Some(3)".to_string(),
        }
    );
    assert_eq!(
        SupervisorClient::registration_outcome(answer(None)),
        Registration::Incompatible {
            lease,
            message: "incompatible codex supervisor protocol: expected 2, got None".to_string(),
        }
    );
    assert_eq!(
        SupervisorClient::registration_outcome(Response::Ack),
        Registration::Invalid {
            message: "supervisor returned an invalid register response".to_string(),
        }
    );
    assert_eq!(lease.id(), 5);
    assert_eq!(lease.close_request(), Request::Unregister { id: 5, lease_token: 6 });
}

#[test]
fn answers_are_taken_for_what_was_asked() {
    let snapshot = |protocol_version| {
        Response::Snapshot(SupervisorSnapshot { protocol_version, daemon_pid: 1, processes: vec![] })
    };
    assert_eq!(SupervisorClient::listed_processes(snapshot(2)).expect("same version").daemon_pid, 1);
    assert_eq!(
        SupervisorClient::listed_processes(snapshot(1)),
        Err("incompatible codex supervisor protocol: expected 2, got 1".to_string())
    );
    assert_eq!(
        SupervisorClient::listed_processes(Response::Ack),
        Err("supervisor returned an invalid list response".to_string())
    );
    assert_eq!(SupervisorClient::spawned_worker(Response::Spawned { id: 5, pid: 1 }), Ok(5));
    assert_eq!(
        SupervisorClient::spawned_worker(Response::Pong),
        Err("supervisor returned an invalid spawn response".to_string())
    );
    let page = WorkPage {
        process_id: 5,
        section: WorkSection::Plan,
        items: vec![],
        next_cursor: None,
        plan_text: None,
    };
    assert_eq!(SupervisorClient::received_page(Response::WorkPage(page.clone())), Ok(page));
    assert_eq!(
        SupervisorClient::received_page(Response::Ack),
        Err("supervisor returned an invalid work page response".to_string())
    );
    assert_eq!(SupervisorClient::acknowledged(Response::Ack, "terminate"), Ok(()));
    assert_eq!(
        SupervisorClient::acknowledged(Response::Pong, "terminate"),
        Err("supervisor returned an invalid terminate response".to_string())
    );
    assert_eq!(SupervisorClient::answered_ping(Response::Pong), Ok(()));
    assert_eq!(
        SupervisorClient::answered_ping(Response::Ack),
        Err("supervisor returned an invalid ping response".to_string())
    );
    assert_eq!(
        SupervisorClient::call_outcome(Response::Error { message: "no".to_string() }),
        Err("no".to_string())
    );
    assert_eq!(SupervisorClient::call_outcome(Response::Ack), Ok(Response::Ack));
}

#[test]
fn requests_carry_what_was_asked_for() {
    assert_eq!(
        SupervisorClient::work_page_request(5, WorkSection::Plan, Some("2".to_string()), 9),
        Request::ReadWork(WorkRequest {
            id: 5,
            section: WorkSection::Plan,
            cursor: Some("2".to_string()),
            limit: 9,
        })
    );
    assert_eq!(
        SupervisorClient::spawn_request(WorkerSpec {
            executable: "/bin/codex".to_string(),
            args: vec![text("exec")],
            cwd: "/workspace".to_string(),
            kind: ProcessKind::Cli,
            thread_id: None,
        }),
        Request::SpawnWorker(spawn())
    );
}

#[test]
fn supervisor_is_started_once_and_waited_for() {
    assert_eq!(next_start_step(true, false, false), StartStep::Ready);
    assert_eq!(next_start_step(false, false, true), StartStep::StartDaemon);
    assert_eq!(next_start_step(false, true, false), StartStep::Wait);
    assert_eq!(
        next_start_step(false, true, true),
        StartStep::GiveUp("codex supervisor did not become ready within 10 seconds".to_string())
    );
}

fn quoted(argument: &str) -> String {
    let units: Vec<u16> = argument.encode_utf16().collect();
    String::from_utf16(&quote_windows_arg(&units)).expect("text stays text")
}

#[test]
fn windows_arguments_are_quoted() {
    assert_eq!(quoted("plain"), "\"plain\"");
    assert_eq!(quoted(r"C:\Program Files\codex.exe"), "\"C:\\Program Files\\codex.exe\"");
    assert_eq!(quoted("say \"hi\""), "\"say \\\"hi\\\"\"");
    assert_eq!(quoted(r"ends with \\"), "\"ends with \\\\\\\\\"");
}

#[test]
fn windows_command_line_starts_the_supervisor() {
    let units: Vec<u16> = r"C:\codex.exe".encode_utf16().collect();
    let mut line = daemon_command_line(&units);
    assert_eq!(line.pop(), Some(0));
    assert_eq!(
        String::from_utf16(&line).expect("text stays text"),
        "\"C:\\codex.exe\" --codex-supervisor-daemon"
    );
}

#[test]
fn first_argument_makes_a_process_the_supervisor() {
    assert!(identity::starts_daemon(&vec![text("codex"), text("--codex-supervisor-daemon")]));
    assert!(!identity::starts_daemon(&vec![text("--codex-supervisor-daemon")]));
    assert!(!identity::starts_daemon(&vec![
        text("codex"),
        text("exec"),
        text("--codex-supervisor-daemon"),
    ]));
    assert!(!identity::starts_daemon(&vec![text("codex"), ProcessArg::NonUtf8(vec![1])]));
}

#[test]
fn requests_without_the_token_are_refused() {
    let envelope = |token: &str| Envelope { token: token.to_string(), request: Request::Ping };
    assert_eq!(authenticate("abc", envelope("abc")), Ok(Request::Ping));
    assert_eq!(
        authenticate("abc", envelope("abd")),
        Err(Response::Error { message: "invalid supervisor token".to_string() })
    );
    assert_eq!(into_response(Ok(Response::Ack)), Response::Ack);
    assert_eq!(
        into_response(Err("no".to_string())),
        Response::Error { message: "no".to_string() }
    );
}

fn error(message: &str) -> RequestStep {
    RequestStep::Reply(Response::Error { message: message.to_string() })
}

#[test]
fn process_is_registered_and_given_back() {
    let mut state = SupervisorState::new(1);
    assert_eq!(handle_request(&mut state, Request::Ping), RequestStep::Reply(Response::Pong));
    assert_eq!(
        handle_request(&mut state, Request::Register(registration(Some(5), Some(6)))),
        RequestStep::Reply(Response::Registered {
            id: 5,
            lease_token: 6,
            protocol_version: Some(2),
        })
    );
    assert_eq!(state.records.len(), 1);
    match handle_request(&mut state, Request::List) {
        RequestStep::Observe(targets) => {
            assert_eq!(targets.len(), 1);
            assert_eq!((targets[0].id, targets[0].pid), (5, 50));
        }
        step => panic!("unexpected step {step:?}"),
    }
    let wrong = handle_request(&mut state, Request::Unregister { id: 5, lease_token: 7 });
    assert!(matches!(wrong, RequestStep::Reply(Response::Error { .. })));
    assert_eq!(state.records.len(), 1);
    assert_eq!(
        handle_request(&mut state, Request::Unregister { id: 5, lease_token: 6 }),
        RequestStep::Reply(Response::Ack)
    );
    assert_eq!(state.records.len(), 0);
}

#[test]
fn fresh_identities_differ() {
    let mut state = SupervisorState::new(1);
    let mut ids = vec![];
    for pid in 50..52 {
        let request = RegisterRequest { pid, ..registration(None, None) };
        match handle_request(&mut state, Request::Register(request)) {
            RequestStep::Reply(Response::Registered { id, lease_token, .. }) => {
                assert_ne!(id, lease_token);
                ids.push(id);
            }
            step => panic!("unexpected step {step:?}"),
        }
    }
    assert_ne!(ids[0], ids[1]);
    let created = state.records.values().next().expect("a record").created_at;
    assert!(created > 1_600_000_000);
}

#[test]
fn process_is_registered_once() {
    let mut state = SupervisorState::new(1);
    handle_request(&mut state, Request::Register(registration(Some(5), Some(6))));
    assert_eq!(
        handle_request(&mut state, Request::Register(registration(None, None))),
        error("process 50 is already registered")
    );
}

#[test]
fn requests_about_unknown_processes_are_answered_with_an_error() {
    let mut state = SupervisorState::new(1);
    let told = format!("supervisor process {ID_5} not found");
    assert_eq!(handle_request(&mut state, Request::Terminate { id: 5 }), error(&told));
    assert_eq!(
        handle_request(
            &mut state,
            SupervisorClient::work_page_request(5, WorkSection::Plan, None, 1)
        ),
        error(&told)
    );
}

#[test]
fn termination_checks_a_process_that_registered_itself() {
    let mut state = SupervisorState::new(1);
    handle_request(&mut state, Request::Register(registration(Some(5), Some(6))));
    assert_eq!(
        handle_request(&mut state, Request::Terminate { id: 5 }),
        RequestStep::CheckAlive { id: 5, pid: 50 }
    );
    assert_eq!(state.termination_verified(5, 50), Ok(()));
    assert_eq!(state.records[&5].status, ProcessStatus::Stopping);
    assert!(state.termination_verified(5, 51).is_err());
    assert_eq!(state.termination_found_exited(5, 50, 9), Ok(Response::Ack));
    assert_eq!(state.records[&5].status, ProcessStatus::Exited);
}

#[test]
fn termination_stops_a_worker_of_the_supervisor() {
    let mut state = SupervisorState::new(1);
    assert_eq!(
        handle_request(&mut state, Request::SpawnWorker(spawn())),
        RequestStep::Spawn(spawn())
    );
    assert_eq!(state.record_spawned(spawn(), 5, 6, 77, 10), Response::Spawned { id: 5, pid: 77 });
    assert_eq!(
        handle_request(&mut state, Request::Terminate { id: 5 }),
        RequestStep::Stop { id: 5 }
    );
    assert_eq!(state.records[&5].status, ProcessStatus::Stopping);
    state.worker_exited(5, Some(3), 11);
    assert_eq!(state.records[&5].status, ProcessStatus::Exited);
    assert_eq!(state.records[&5].exit_code, Some(3));
}

#[test]
fn work_is_read_from_the_worker() {
    let mut state = SupervisorState::new(1);
    handle_request(&mut state, Request::Register(registration(Some(5), Some(6))));
    let request = SupervisorClient::work_page_request(5, WorkSection::Prompt, None, 3);
    let (request, target) = match handle_request(&mut state, request) {
        RequestStep::ReadWork { request, target } => (request, target),
        step => panic!("unexpected step {step:?}"),
    };
    let endpoint = query::reach_worker(&mut state, &target, true, 20).expect("worker listens");
    assert_eq!(endpoint.token, "secret");
    let mut reporter = SupervisorReporter::new();
    reporter.set_prompt("inspect".to_string());
    let answer = handle_worker_request(
        &reporter,
        "secret",
        WorkerEnvelope { token: endpoint.token, request: WorkerRequest::ReadWork(request) },
    );
    let response = query::read_work_response(answer).expect("worker answers");
    let page = SupervisorClient::received_page(response).expect("a page comes back");
    assert_eq!(page.items[0].content, "inspect");
    assert_eq!(page.process_id, 5);
}

#[test]
fn worker_refuses_another_token() {
    let reporter = SupervisorReporter::new();
    let envelope =
        |token: &str| WorkerEnvelope { token: token.to_string(), request: WorkerRequest::ReadStatus };
    assert_eq!(
        handle_worker_request(&reporter, "secret", envelope("guess")),
        WorkerResponse::Error { message: "invalid worker control token".to_string() }
    );
    assert!(matches!(
        handle_worker_request(&reporter, "secret", envelope("secret")),
        WorkerResponse::Status(_)
    ));
}

#[test]
fn worker_reports_a_bad_cursor() {
    let reporter = SupervisorReporter::new();
    let request = WorkRequest {
        id: 5,
        section: WorkSection::Messages,
        cursor: Some("next".to_string()),
        limit: 1,
    };
    let answer = handle_worker_request(
        &reporter,
        "secret",
        WorkerEnvelope { token: "secret".to_string(), request: WorkerRequest::ReadWork(request) },
    );
    assert!(matches!(answer, WorkerResponse::Error { .. }));
}

#[test]
fn workers_start_where_they_can() {
    let worker = WorkerIdentity { id: 5, lease_token: 6 };
    assert_eq!(
        plan_spawn(&spawn(), true, true, worker),
        Ok(vec![
            SUPERVISOR_WORKER_ARG.to_string(),
            ID_5.to_string(),
            "00000000-0000-0000-0000-000000000006".to_string(),
            "exec".to_string(),
        ])
    );
    assert_eq!(
        plan_spawn(&spawn(), false, true, worker),
        Err("worker executable does not exist: /bin/codex".to_string())
    );
    assert_eq!(
        plan_spawn(&spawn(), true, false, worker),
        Err("worker working directory does not exist: /workspace".to_string())
    );
}

#[test]
fn signals_reach_the_group_of_its_leader_alone() {
    assert_eq!(system_pid(77), Some(77));
    assert_eq!(system_pid(0x8000_0000), None);
    assert_eq!(signal_target(77, 77), -77);
    assert_eq!(signal_target(77, 5), 77);
    assert!(probe_shows_life(0, false));
    assert!(probe_shows_life(-1, true));
    assert!(!probe_shows_life(-1, false));
    assert!(needs_own_group(false, false, false));
    assert!(!needs_own_group(false, true, false));
}

#[test]
fn timestamps_count_whole_seconds_since_the_epoch() {
    let epoch = std::time::UNIX_EPOCH;
    assert_eq!(timestamp(&epoch), 0);
    assert_eq!(timestamp(&(epoch + std::time::Duration::from_millis(5900))), 5);
    assert_eq!(timestamp(&(epoch - std::time::Duration::from_secs(5))), 0);
    let before = timestamp(&std::time::SystemTime::now());
    let read = unix_seconds();
    assert!(before <= read && read <= timestamp(&std::time::SystemTime::now()));
}
