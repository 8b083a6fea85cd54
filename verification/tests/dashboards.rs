use codex_supervisor::dashboard::{
    error_params, find_process, limit_display_text, loading_params, process_details_params,
    process_error_params, process_loading_params, snapshot_params, work_error_params,
    work_loading_params, work_page_params, DashboardEvent, SelectionItem, SelectionViewParams,
    VIEW_ID,
};
use codex_supervisor::dashboard_tool::{
    create_codex_dashboard_tool, CodexDashboardArgs, CodexDashboardHandler, DashboardQuery,
    ParameterType,
};
use codex_supervisor::types::{
    ActivityStatus, ProcessKind, ProcessMode, ProcessRecord, ProcessStatus, SupervisorSnapshot,
    WorkItem, WorkPage, WorkSection,
};

const SNAPSHOT_CURRENT_PID: u32 = 42_000;

fn record(
    pid: u32,
    kind: ProcessKind,
    status: ProcessStatus,
    thread_id: Option<&str>,
) -> ProcessRecord {
    ProcessRecord {
        id: u128::from(pid),
        pid,
        parent_pid: Some(1),
        kind,
        status,
        activity: ActivityStatus::Idle,
        mode: ProcessMode::Default,
        summary: None,
        error: None,
        executable: "codex".to_string(),
        argv: vec!["--model".to_string(), "gpt-5".to_string()],
        cwd: format!("/workspace/{pid}"),
        thread_id: thread_id.map(str::to_string),
        created_at: 100,
        last_observed_at: 200,
        last_state_update_at: 200,
        exit_code: None,
    }
}

fn names(params: &SelectionViewParams) -> Vec<&str> {
    params.items.iter().map(|item| item.name.as_str()).collect()
}

fn description(params: &SelectionViewParams, index: usize) -> &str {
    params.items[index].description.as_deref().expect("the entry is described")
}

/// An entry that asks for something, or one that cannot be chosen.
fn entry(
    name: &str,
    description: Option<&str>,
    action: Option<DashboardEvent>,
    dismiss_on_select: bool,
) -> SelectionItem {
    SelectionItem {
        name: name.to_string(),
        description: description.map(str::to_string),
        is_current: false,
        is_disabled: action.is_none(),
        action,
        dismiss_on_select,
        search_value: None,
    }
}

fn back_to_list() -> SelectionItem {
    entry("Back to process list", None, Some(DashboardEvent::OpenDashboard), true)
}

#[test]
fn dashboard_snapshot_covers_current_and_managed_processes() {
    let snapshot = SupervisorSnapshot {
        protocol_version: 2,
        daemon_pid: 900,
        processes: vec![
            record(
                SNAPSHOT_CURRENT_PID,
                ProcessKind::Tui,
                ProcessStatus::Running,
                Some("thread-current"),
            ),
            record(
                42901,
                ProcessKind::Tui,
                ProcessStatus::Running,
                Some("thread-running"),
            ),
            record(42902, ProcessKind::Cli, ProcessStatus::Unresponsive, None),
            record(
                42903,
                ProcessKind::Tui,
                ProcessStatus::Stopping,
                Some("thread-stopping"),
            ),
        ],
    };

    let params = snapshot_params(&snapshot, SNAPSHOT_CURRENT_PID);
    assert_eq!(params.title, "Codex process dashboard");
    assert_eq!(params.subtitle, "Supervisor PID 900 | 4 registered process(es)");
    assert_eq!(
        names(&params),
        vec![
            "Refresh process list",
            "TUI PID 42000",
            "TUI PID 42901",
            "CLI PID 42902",
            "TUI PID 42903",
        ]
    );
    assert_eq!(params.items[0].action, Some(DashboardEvent::Refresh));
    assert!(params.items[1].is_current);
    assert!(!params.items[2].is_current);
    assert_eq!(
        description(&params, 1),
        "status: running | activity: idle | mode: default | summary: - | error: - | cwd: /workspace/42000 | thread: thread-current | observed: 200"
    );
    assert!(description(&params, 3).starts_with("status: unresponsive | "));
    assert!(description(&params, 3).contains(" | thread: - | "));
    assert!(description(&params, 4).starts_with("status: stopping | "));
    assert_eq!(params.items[3].action, Some(DashboardEvent::OpenDetails(42902)));
    assert_eq!(
        params.items[3].search_value.as_deref(),
        Some("42902 CLI unresponsive idle default /workspace/42902")
    );
}

#[test]
fn dashboard_snapshot_handles_empty_registry() {
    let snapshot =
        SupervisorSnapshot { protocol_version: 2, daemon_pid: 901, processes: Vec::new() };

    let params = snapshot_params(&snapshot, SNAPSHOT_CURRENT_PID);
    assert_eq!(params.view_id, Some(VIEW_ID));
    assert_eq!(params.subtitle, "Supervisor PID 901 | 0 registered process(es)");
    assert_eq!(names(&params), vec!["Refresh process list", "No Codex processes registered"]);
    assert_eq!(
        description(&params, 1),
        "The supervisor is running, but its registry is empty."
    );
    assert!(params.items[1].is_disabled);
}

#[test]
fn dashboard_snapshot_handles_unavailable_supervisor() {
    let error = "failed to connect to supervisor socket";
    let params = error_params(error.to_string());
    assert_eq!(params.view_id, Some(VIEW_ID));
    assert_eq!(params.title, "Codex process dashboard");
    assert_eq!(params.subtitle, "Supervisor is unavailable");
    assert_eq!(
        params.items,
        vec![
            entry("Retry connection", Some(error), Some(DashboardEvent::Refresh), false),
            back_to_list(),
        ]
    );
}

#[test]
fn dashboard_snapshot_renders_process_details() {
    let mut process =
        record(42901, ProcessKind::Cli, ProcessStatus::Running, Some("thread-1"));
    process.activity = ActivityStatus::ExecutingTool;
    process.mode = ProcessMode::Plan;
    process.summary = Some("cargo test -p codex-core".to_string());
    process.error = Some("previous retry".to_string());

    let params = process_details_params(&process, SNAPSHOT_CURRENT_PID);
    assert_eq!(params.view_id, Some(VIEW_ID));
    assert_eq!(params.title, "CLI process details");
    assert_eq!(
        params.subtitle,
        "PID 42901 | status: running | activity: executingTool | mode: plan | summary: cargo test -p codex-core | error: previous retry | cwd: /workspace/42901 | thread: thread-1 | observed: 200"
    );
    assert_eq!(
        names(&params),
        vec![
            "Refresh process state",
            "Back to process list",
            "Terminate process",
            "Read prompt",
            "Read plan",
            "Read messages",
            "Read tool calls",
        ]
    );
    assert_eq!(params.items[2].action, Some(DashboardEvent::Terminate(42901)));
    assert_eq!(
        params.items[6].action,
        Some(DashboardEvent::ReadWork {
            id: 42901,
            section: WorkSection::ToolCalls,
            cursor: None,
        })
    );
}

#[test]
fn processes_that_cannot_be_terminated_say_why() {
    let current = record(SNAPSHOT_CURRENT_PID, ProcessKind::Tui, ProcessStatus::Running, None);
    let stopping = record(1, ProcessKind::Tui, ProcessStatus::Stopping, None);
    let exited = record(2, ProcessKind::Tui, ProcessStatus::Exited, None);
    for (process, told) in [
        (current, "The current Codex process cannot terminate itself."),
        (stopping, "Termination is already in progress."),
        (exited, "This process has already exited."),
    ] {
        let params = process_details_params(&process, SNAPSHOT_CURRENT_PID);
        let item = &params.items[2];
        assert_eq!(item.name, "Process termination unavailable");
        assert_eq!(item.description.as_deref(), Some(told));
        assert!(item.is_disabled);
        assert_eq!(item.action, None);
    }
}

#[test]
fn dashboard_snapshot_renders_paginated_work_page() {
    let page = WorkPage {
        process_id: 42901,
        section: WorkSection::ToolCalls,
        items: vec![
            WorkItem {
                index: 0,
                title: "exec".to_string(),
                content: String::new(),
                id: Some("call-1".to_string()),
                status: Some("running".to_string()),
                input: Some("{\"command\":[\"cargo\",\"test\"]}".to_string()),
                output: None,
                created_at: Some(200),
            },
            WorkItem {
                index: 1,
                title: "apply_patch".to_string(),
                content: String::new(),
                id: Some("call-2".to_string()),
                status: Some("completed".to_string()),
                input: Some("{\"path\":\"src/lib.rs\"}".to_string()),
                output: Some("updated".to_string()),
                created_at: Some(201),
            },
        ],
        next_cursor: Some("2".to_string()),
        plan_text: None,
    };

    let params = work_page_params(&page);
    assert_eq!(params.title, "Process 00000000-0000-0000-0000-00000000a795: tool calls");
    let names = names(&params);
    let first = names.iter().position(|name| *name == "#0 exec").expect("first call");
    assert_eq!(names[first + 1], "#1 apply_patch");
    assert_eq!(
        description(&params, first),
        "id: call-1\nstatus: running\ninput: {\"command\":[\"cargo\",\"test\"]}\ncreated_at: 200"
    );
    assert_eq!(
        description(&params, first + 1),
        "id: call-2\nstatus: completed\ninput: {\"path\":\"src/lib.rs\"}\noutput: updated\ncreated_at: 201"
    );
    let next = names.iter().position(|name| *name == "Read next page").expect("more to read");
    assert_eq!(description(&params, next), "Continue reading tool calls from cursor 2.");
    assert_eq!(
        params.items[next].action,
        Some(DashboardEvent::ReadWork {
            id: 42901,
            section: WorkSection::ToolCalls,
            cursor: Some("2".to_string()),
        })
    );
}

#[test]
fn dashboard_snapshot_renders_plan_text_and_checklist() {
    let page = WorkPage {
        process_id: 42902,
        section: WorkSection::Plan,
        items: vec![WorkItem {
            index: 0,
            title: "plan step".to_string(),
            content: "inspect the supervisor".to_string(),
            id: None,
            status: Some("inProgress".to_string()),
            input: None,
            output: None,
            created_at: None,
        }],
        next_cursor: None,
        plan_text: Some("1. inspect the supervisor\n2. report the result".to_string()),
    };

    let params = work_page_params(&page);
    assert_eq!(params.view_id, Some(VIEW_ID));
    let names = names(&params);
    let proposal = names.iter().position(|name| *name == "Plan mode proposal").expect("plan text");
    assert_eq!(
        description(&params, proposal),
        "1. inspect the supervisor\n2. report the result"
    );
    let step = names.iter().position(|name| *name == "#0 plan step").expect("plan step");
    assert_eq!(description(&params, step), "status: inProgress\ninspect the supervisor");
    assert!(!names.contains(&"Read next page"));
}

#[test]
fn lists_say_that_they_are_loaded() {
    assert_eq!(VIEW_ID, "supervisor-dashboard");
    assert_eq!(
        loading_params(),
        SelectionViewParams {
            view_id: Some(VIEW_ID),
            title: "Codex process dashboard".to_string(),
            subtitle: "Loading process state...".to_string(),
            items: vec![entry("Loading...", None, None, false)],
        }
    );
    assert_eq!(
        process_loading_params(7),
        SelectionViewParams {
            view_id: Some(VIEW_ID),
            title: "Codex process details".to_string(),
            subtitle: "Loading process 00000000-0000-0000-0000-000000000007...".to_string(),
            items: vec![entry("Loading process state...", None, None, false)],
        }
    );
    let params = work_loading_params(7, WorkSection::Prompt);
    assert_eq!(params.view_id, Some(VIEW_ID));
    assert_eq!(params.title, "Process 00000000-0000-0000-0000-000000000007: prompt");
    assert_eq!(params.subtitle, "Loading work content...");
    assert_eq!(names(&params), vec!["Loading..."]);
    assert_eq!(
        process_error_params("gone".to_string()),
        SelectionViewParams {
            view_id: Some(VIEW_ID),
            title: "Codex process details".to_string(),
            subtitle: "Unable to read process state".to_string(),
            items: vec![entry("Process query failed", Some("gone"), None, false), back_to_list()],
        }
    );
    assert_eq!(
        work_error_params("gone".to_string()),
        SelectionViewParams {
            view_id: Some(VIEW_ID),
            title: "Codex process work".to_string(),
            subtitle: "Unable to read work content".to_string(),
            items: vec![entry("Work query failed", Some("gone"), None, false), back_to_list()],
        }
    );
}

#[test]
fn long_content_is_cut_for_display() {
    let marker = "\n[content truncated for dashboard display]";
    assert_eq!(limit_display_text("short"), "short");
    let shown = limit_display_text(&"x".repeat(9000));
    assert_eq!(shown, format!("{}{marker}", "x".repeat(8192)));
    let wide = limit_display_text(&format!("x{}", "é".repeat(5000)));
    assert_eq!(wide, format!("x{}{marker}", "é".repeat(4095)));
}

#[test]
fn processes_are_found_by_their_identifier() {
    let snapshot = SupervisorSnapshot {
        protocol_version: 2,
        daemon_pid: 1,
        processes: vec![record(5, ProcessKind::Tui, ProcessStatus::Running, None)],
    };
    assert_eq!(find_process(&snapshot, 5).expect("process is found").pid, 5);
    assert_eq!(
        find_process(&snapshot, 6),
        Err("supervisor process 00000000-0000-0000-0000-000000000006 was not found".to_string())
    );
    assert_eq!(
        CodexDashboardHandler.select_process(&snapshot, 5),
        find_process(&snapshot, 5)
    );
}

fn args(process_id: Option<&str>, section: Option<WorkSection>) -> CodexDashboardArgs {
    CodexDashboardArgs {
        process_id: process_id.map(str::to_string),
        section,
        cursor: Some("3".to_string()),
        limit: None,
    }
}

#[test]
fn dashboard_tool_asks_what_it_was_called_with() {
    let tool = CodexDashboardHandler;
    let id = "00000000-0000-0000-0000-00000000000a";
    assert_eq!(tool.handle_call(args(None, None)), Ok(DashboardQuery::Snapshot));
    assert_eq!(tool.handle_call(args(Some(id), None)), Ok(DashboardQuery::Process(10)));
    assert_eq!(
        tool.handle_call(args(Some(id), Some(WorkSection::Plan))),
        Ok(DashboardQuery::Work {
            id: 10,
            section: WorkSection::Plan,
            cursor: Some("3".to_string()),
            limit: 20,
        })
    );
    let mut limited = args(Some(id), Some(WorkSection::Plan));
    limited.limit = Some(4);
    assert!(matches!(tool.handle_call(limited), Ok(DashboardQuery::Work { limit: 4, .. })));
    assert_eq!(
        tool.handle_call(args(None, Some(WorkSection::Plan))),
        Err("section requires process_id".to_string())
    );
    assert_eq!(
        tool.handle_call(args(Some("nobody"), None)),
        Err("invalid supervisor process_id `nobody`: invalid character: found `n` at 0".to_string())
    );
}

#[test]
fn identifiers_are_read_in_every_form() {
    let tool = CodexDashboardHandler;
    for form in [
        "0000000000000000000000000000ABCD",
        "00000000-0000-0000-0000-00000000abcd",
        "{00000000-0000-0000-0000-00000000abCD}",
        "urn:uuid:00000000-0000-0000-0000-00000000abcd",
    ] {
        assert_eq!(tool.handle_call(args(Some(form), None)), Ok(DashboardQuery::Process(0xabcd)));
    }
    for wrong in [
        "",
        "00000000-0000-0000-00000-0000000abcd",
        "(00000000-0000-0000-0000-00000000abcd)",
        "0000000000000000000000000000abcg",
    ] {
        assert!(tool.handle_call(args(Some(wrong), None)).is_err());
    }
}

#[test]
fn dashboard_tool_names_its_parameters() {
    let tool = create_codex_dashboard_tool();
    assert_eq!(tool.name, "codex_dashboard");
    assert_eq!(CodexDashboardHandler.tool_name(), "codex_dashboard");
    assert!(!tool.strict);
    assert!(!tool.additional_properties);
    let names: Vec<&str> = tool.parameters.iter().map(|p| p.name.as_str()).collect();
    assert_eq!(names, vec!["cursor", "limit", "process_id", "section"]);
    assert_eq!(tool.parameters[1].parameter_type, ParameterType::Integer);
    assert_eq!(tool.parameters[3].choices, vec!["prompt", "plan", "messages", "toolCalls"]);
}

#[test]
fn dashboard_tool_tells_of_failures() {
    let tool = CodexDashboardHandler;
    assert_eq!(tool.unsupported_payload(), "codex_dashboard received unsupported payload");
    assert_eq!(
        tool.connection_failure("refused"),
        "codex_dashboard could not connect to supervisor: refused"
    );
    assert_eq!(
        tool.query_failure(&DashboardQuery::Snapshot, "late"),
        "codex_dashboard snapshot failed: late"
    );
    assert_eq!(
        tool.query_failure(&DashboardQuery::Process(1), "late"),
        "codex_dashboard snapshot failed: late"
    );
    let work = DashboardQuery::Work { id: 1, section: WorkSection::Plan, cursor: None, limit: 1 };
    assert_eq!(tool.query_failure(&work, "late"), "codex_dashboard work query failed: late");
}
