use codex_supervisor::identity;
use codex_supervisor::identity::{ProcessArg, WorkerArgsError, WorkerIdentity, SUPERVISOR_WORKER_ARG};
use codex_supervisor::pages;
use codex_supervisor::reporter;
use codex_supervisor::reporter::SupervisorReporter;
use codex_supervisor::types::{
    ActivityStatus, PlanStep, ProcessMode, ToolCallRecord, WorkMessage, WorkSection, WorkerDetails,
    WorkerStatus, MAX_PAGE_LIMIT,
};
use codex_supervisor::MAX_FRAME_SIZE;

fn text(value: &str) -> ProcessArg {
    ProcessArg::Text(value.to_string())
}

fn id_text(id: u128) -> String {
    uuid::Uuid::from_u128(id).to_string()
}

fn tool_call(index: usize, size: usize) -> ToolCallRecord {
    ToolCallRecord {
        id: Some(format!("call-{index}")),
        name: format!("tool-{index}"),
        input: "i".repeat(size),
        output: Some("o".repeat(size)),
        status: "completed".to_string(),
        created_at: None,
    }
}

#[test]
fn worker_arguments_are_filtered_from_clap_and_dashboard_argv() {
    let id = uuid::Uuid::new_v4().as_u128();
    let lease_token = uuid::Uuid::new_v4().as_u128();
    let (identity, args) = identity::parse_worker_args(&vec![
        text("codex"),
        text(SUPERVISOR_WORKER_ARG),
        text(&id_text(id)),
        text(&id_text(lease_token)),
        text("resume"),
        text("--last"),
    ])
    .expect("worker arguments parse");
    assert_eq!(identity, Some(WorkerIdentity { id, lease_token }));
    assert_eq!(args, vec![text("codex"), text("resume"), text("--last")]);
}

#[test]
fn malformed_worker_arguments_fail_closed() {
    let result = identity::parse_worker_args(&vec![
        text("codex"),
        text(SUPERVISOR_WORKER_ARG),
        text("not-a-uuid"),
        text("also-not-a-uuid"),
    ]);
    assert!(result.is_err());
}

#[test]
fn each_fault_in_worker_arguments_is_named() {
    let id = id_text(7);
    let short = identity::parse_worker_args(&vec![text(SUPERVISOR_WORKER_ARG), text(&id)]);
    assert_eq!(short, Err(WorkerArgsError::Incomplete));
    let no_text = identity::parse_worker_args(&vec![
        text(SUPERVISOR_WORKER_ARG),
        text(&id),
        ProcessArg::NonUtf8(vec![0xff]),
    ]);
    assert_eq!(no_text, Err(WorkerArgsError::Incomplete));
    let bad_id = identity::parse_worker_args(&vec![
        text(SUPERVISOR_WORKER_ARG),
        text("nobody"),
        text(&id),
    ]);
    let error = bad_id.expect_err("identifier is refused");
    let cause = uuid::Uuid::parse_str("nobody").expect_err("no identifier").to_string();
    assert_eq!(error.cause(), Some(cause.as_str()));
    assert_eq!(error, WorkerArgsError::InvalidProcessId { value: "nobody".to_string(), cause });
    assert_eq!(error.message(), "invalid supervisor worker process id nobody");
    let bad_token = identity::parse_worker_args(&vec![
        text(SUPERVISOR_WORKER_ARG),
        text(&id),
        text("key"),
    ]);
    let error = bad_token.expect_err("token is refused");
    let cause = uuid::Uuid::parse_str("key").expect_err("no identifier").to_string();
    assert_eq!(error, WorkerArgsError::InvalidLeaseToken { value: "key".to_string(), cause });
    assert_eq!(error.message(), "invalid supervisor worker lease token key");
    let twice = identity::parse_worker_args(&vec![
        text(SUPERVISOR_WORKER_ARG),
        text(&id),
        text(&id),
        text(SUPERVISOR_WORKER_ARG),
        text(&id),
        text(&id),
    ]);
    assert!(twice.is_err());
}

#[test]
fn worker_reads_back_the_identity_that_it_was_started_with() {
    let identity = WorkerIdentity { id: 42, lease_token: 43 };
    let args = identity::worker_args(identity, &vec!["exec".to_string()]);
    assert_eq!(
        args,
        vec![
            SUPERVISOR_WORKER_ARG.to_string(),
            "00000000-0000-0000-0000-00000000002a".to_string(),
            "00000000-0000-0000-0000-00000000002b".to_string(),
            "exec".to_string(),
        ]
    );
    let args: Vec<ProcessArg> = args.into_iter().map(ProcessArg::Text).collect();
    assert_eq!(identity::worker_identity(&args), Ok(Some(identity)));
    assert_eq!(identity::filtered_process_args(&args), Ok(vec![text("exec")]));
}

#[test]
fn bytes_are_shown_with_replacement_characters() {
    let args = vec![text("a"), ProcessArg::NonUtf8(vec![b'x', 0xff, b'y'])];
    assert_eq!(identity::show_args(&args, 0), vec!["a".to_string(), "x\u{fffd}y".to_string()]);
    assert_eq!(identity::show_args(&args, 1), vec!["x\u{fffd}y".to_string()]);
}

#[test]
fn frame_size_is_bounded() {
    assert_eq!(MAX_FRAME_SIZE, 1024 * 1024);
}

#[test]
fn work_pages_are_bounded_and_cursored() {
    let id = uuid::Uuid::new_v4().as_u128();
    let details = WorkerDetails {
        prompt: Some("inspect the worker registry".to_string()),
        plan_text: Some("1. inspect\n2. report".to_string()),
        plan: vec![PlanStep {
            step: "read status".to_string(),
            status: "in_progress".to_string(),
        }],
        messages: vec![WorkMessage {
            role: "user".to_string(),
            content: "show all processes".to_string(),
            created_at: None,
        }],
        tool_calls: Vec::new(),
    };

    let page = details
        .page(id, WorkSection::Messages, None, 1)
        .expect("first page should be readable");
    assert_eq!(page.items.len(), 1);
    assert_eq!(page.next_cursor, None);
    assert_eq!(page.items[0].content, "show all processes");

    let plan_page = details
        .page(id, WorkSection::Plan, None, 1)
        .expect("plan page should be readable");
    assert_eq!(
        plan_page.plan_text,
        Some("1. inspect\n2. report".to_string())
    );
    assert_eq!(plan_page.items[0].content, "read status");
}

#[test]
fn reporter_merges_tool_lifecycle_and_exposes_plan_text() {
    let mut reporter = SupervisorReporter::new();
    let process_id = uuid::Uuid::new_v4().as_u128();
    reporter.set_prompt("inspect the supervisor".to_string());
    reporter.set_plan_text("first".to_string());
    reporter.append_plan_delta("\nsecond".to_string());
    reporter.upsert_tool_call(ToolCallRecord {
        id: Some("call-1".to_string()),
        name: "exec".to_string(),
        input: "{\"command\":[\"pwd\"]}".to_string(),
        output: None,
        status: "running".to_string(),
        created_at: Some(1),
    });
    reporter.upsert_tool_call(ToolCallRecord {
        id: Some("call-1".to_string()),
        name: "exec".to_string(),
        input: String::new(),
        output: Some("workspace".to_string()),
        status: "completed".to_string(),
        created_at: Some(2),
    });

    let plan_page = reporter
        .page(process_id, WorkSection::Plan, None, 20)
        .expect("plan page should be readable");
    assert_eq!(plan_page.plan_text, Some("first\nsecond".to_string()));

    let tool_page = reporter
        .page(process_id, WorkSection::ToolCalls, None, 20)
        .expect("tool page should be readable");
    assert_eq!(tool_page.items.len(), 1);
    assert_eq!(tool_page.items[0].id, Some("call-1".to_string()));
    assert_eq!(tool_page.items[0].status, Some("completed".to_string()));
    assert_eq!(tool_page.items[0].output, Some("workspace".to_string()));
}

#[test]
fn work_pages_fit_the_transport_frame_limit() {
    let id = uuid::Uuid::new_v4().as_u128();
    let details = WorkerDetails {
        tool_calls: (0..MAX_PAGE_LIMIT as usize)
            .map(|index| tool_call(index, 32 * 1024))
            .collect(),
        ..WorkerDetails::default()
    };

    let page = details
        .page(id, WorkSection::ToolCalls, None, MAX_PAGE_LIMIT)
        .expect("large work pages should be split before exceeding the frame limit");
    let wire_size = pages::page_wire_size(&page);

    assert!(wire_size <= MAX_FRAME_SIZE);
    assert!(page.items.len() < MAX_PAGE_LIMIT as usize);
    assert_eq!(page.next_cursor, Some(page.items.len().to_string()));
}

#[test]
fn wire_size_is_that_of_the_response_as_json() {
    let details = WorkerDetails {
        messages: vec![WorkMessage {
            role: "user".to_string(),
            content: "a \"quoted\" line\nand a tab\t".to_string(),
            created_at: Some(-5),
        }],
        ..WorkerDetails::default()
    };
    let page = details.page(1, WorkSection::Messages, None, 1).expect("page");
    let wire = "{\"WorkPage\":{\"processId\":\"00000000-0000-0000-0000-000000000001\",\
\"section\":\"messages\",\"items\":[{\"index\":0,\"title\":\"user\",\
\"content\":\"a \\\"quoted\\\" line\\nand a tab\\t\",\"id\":null,\"status\":null,\"input\":null,\
\"output\":null,\"createdAt\":-5}],\"nextCursor\":null,\"planText\":null}}";
    assert_eq!(pages::page_wire_size(&page), wire.len());
}

#[test]
fn cursors_walk_through_every_item() {
    let details = WorkerDetails {
        tool_calls: (0..7).map(|index| tool_call(index, 4)).collect(),
        ..WorkerDetails::default()
    };
    let mut cursor = None;
    let mut names = Vec::new();
    loop {
        let page = details
            .page(9, WorkSection::ToolCalls, cursor.as_deref(), 3)
            .expect("page");
        assert!(page.items.len() <= 3);
        names.extend(page.items.iter().map(|item| (item.index, item.title.clone())));
        match page.next_cursor {
            Some(next) => cursor = Some(next),
            None => break,
        }
    }
    let expected: Vec<(usize, String)> = (0..7).map(|i| (i, format!("tool-{i}"))).collect();
    assert_eq!(names, expected);
}

#[test]
fn wrong_cursor_is_refused() {
    let details = WorkerDetails::default();
    assert!(details.page(1, WorkSection::Messages, Some("x"), 1).is_err());
    assert!(details.page(1, WorkSection::Messages, Some("1"), 1).is_err());
    assert!(details.page(1, WorkSection::Messages, Some("0"), 1).is_ok());
}

#[test]
fn reporter_bounds_texts_and_lists() {
    assert_eq!(reporter::bound_text("short"), "short");
    let long = "ä".repeat(reporter::MAX_TEXT_BYTES);
    let bound = reporter::bound_text(&long);
    assert!(bound.len() <= reporter::MAX_KEPT_BYTES);
    assert!(bound.starts_with('ä'));
    let mut items: Vec<usize> = Vec::new();
    for i in 0..(reporter::MAX_WORK_ITEMS + 10) {
        reporter::push_bounded(&mut items, i);
    }
    assert_eq!(items.len(), reporter::MAX_WORK_ITEMS);
    assert_eq!(items[0], 10);
    assert_eq!(items[items.len() - 1], reporter::MAX_WORK_ITEMS + 9);
}

#[test]
fn reporter_keeps_the_status_and_its_time() {
    let mut reporter = SupervisorReporter::new();
    reporter.update_status(WorkerStatus {
        thread_id: Some("thread".to_string()),
        activity: ActivityStatus::Idle,
        mode: ProcessMode::Review,
        summary: None,
        error: None,
        updated_at: 1,
    });
    reporter.set_activity(
        ActivityStatus::Thinking,
        ProcessMode::Plan,
        Some("planning".to_string()),
    );
    let status = reporter.status();
    assert_eq!(status.thread_id, Some("thread".to_string()));
    assert_eq!(status.activity, ActivityStatus::Thinking);
    assert_eq!(status.mode, ProcessMode::Plan);
    assert_eq!(status.summary, Some("planning".to_string()));
    assert!(status.updated_at > 1_600_000_000);
    reporter.set_error("lost".to_string());
    assert_eq!(reporter.status().error, Some("lost".to_string()));
    assert_eq!(reporter.status().activity, ActivityStatus::Error);
}
