use codex_supervisor::current::{self, CurrentReporter};
use codex_supervisor::reporter::SupervisorReporter;
use codex_supervisor::session;
use codex_supervisor::session::{
    AgentMessageItem, EventMsg, ModeKind, PlanItem, PlanItemArg, RunStatus, SinkUpdate, StepStatus,
    TurnItem, UserMessageItem,
};
use codex_supervisor::types::{
    ActivityStatus, PlanStep, ProcessMode, ToolCallRecord, WorkSection,
};

#[derive(Default)]
struct RecordingSink {
    thread_id: Option<String>,
    activities: Vec<(ActivityStatus, ProcessMode, Option<String>)>,
    errors: Vec<String>,
    prompt: Option<String>,
    plan_text: Option<String>,
    plans: Vec<Vec<PlanStep>>,
    messages: Vec<(String, String)>,
    tool_calls: Vec<ToolCallRecord>,
}

impl RecordingSink {
    fn record(&mut self, thread_id: u128, mode: ModeKind, event: EventMsg) {
        for update in session::record_event_with_sink(thread_id, mode, &event) {
            match update {
                SinkUpdate::ThreadId(thread_id) => self.thread_id = thread_id,
                SinkUpdate::Activity { activity, mode, summary } => {
                    self.activities.push((activity, mode, summary))
                }
                SinkUpdate::Error(error) => self.errors.push(error),
                SinkUpdate::Prompt(prompt) => self.prompt = Some(prompt),
                SinkUpdate::PlanText(plan_text) => self.plan_text = Some(plan_text),
                SinkUpdate::PlanDelta(delta) => self
                    .plan_text
                    .get_or_insert_with(String::new)
                    .push_str(&delta),
                SinkUpdate::Plan(plan) => self.plans.push(plan),
                SinkUpdate::Message { role, content } => self.messages.push((role, content)),
                SinkUpdate::ToolCall { id, name, input, output, status } => {
                    self.tool_calls.push(ToolCallRecord {
                        id: Some(id),
                        name,
                        input,
                        output,
                        status,
                        created_at: None,
                    })
                }
            }
        }
    }
}

fn user_item() -> TurnItem {
    TurnItem::UserMessage(UserMessageItem {
        preview: Some("inspect the supervisor".to_string()),
    })
}

fn agent_item() -> TurnItem {
    TurnItem::AgentMessage(AgentMessageItem {
        content: vec!["I found the supervisor.".to_string()],
    })
}

fn path_arguments() -> serde_json::Value {
    serde_json::Value::from_iter(vec![("path".to_string(), serde_json::Value::from("."))])
}

#[test]
fn canonical_user_and_agent_items_are_recorded_once() {
    let mut sink = RecordingSink::default();
    let thread_id = 1;
    sink.record(thread_id, ModeKind::Default, EventMsg::ItemStarted(user_item()));
    sink.record(thread_id, ModeKind::Default, EventMsg::ItemCompleted(user_item()));
    sink.record(
        thread_id,
        ModeKind::Default,
        EventMsg::UserMessage { message: "inspect the supervisor".to_string() },
    );
    sink.record(thread_id, ModeKind::Default, EventMsg::ItemStarted(agent_item()));
    sink.record(thread_id, ModeKind::Default, EventMsg::ItemCompleted(agent_item()));
    sink.record(
        thread_id,
        ModeKind::Default,
        EventMsg::AgentMessage { message: "I found the supervisor.".to_string() },
    );

    assert_eq!(sink.thread_id, Some(uuid::Uuid::from_u128(thread_id).to_string()));
    assert_eq!(sink.prompt, Some("inspect the supervisor".to_string()));
    assert_eq!(
        sink.messages,
        vec![
            ("user".to_string(), "inspect the supervisor".to_string()),
            ("assistant".to_string(), "I found the supervisor.".to_string()),
        ]
    );
}

#[test]
fn canonical_plan_text_and_update_plan_are_kept_separately() {
    let mut sink = RecordingSink::default();
    let thread_id = 2;
    sink.record(
        thread_id,
        ModeKind::Plan,
        EventMsg::ItemStarted(TurnItem::Plan(PlanItem { text: String::new() })),
    );
    sink.record(
        thread_id,
        ModeKind::Plan,
        EventMsg::PlanDelta { delta: "draft\n".to_string() },
    );
    sink.record(
        thread_id,
        ModeKind::Plan,
        EventMsg::ItemCompleted(TurnItem::Plan(PlanItem {
            text: "final proposal".to_string(),
        })),
    );
    sink.record(
        thread_id,
        ModeKind::Plan,
        EventMsg::PlanUpdate {
            explanation: Some("execution checklist".to_string()),
            plan: vec![PlanItemArg {
                step: "read the worker state".to_string(),
                status: StepStatus::InProgress,
            }],
        },
    );

    assert_eq!(sink.plan_text, Some("final proposal".to_string()));
    assert_eq!(
        sink.plans,
        vec![vec![PlanStep {
            step: "read the worker state".to_string(),
            status: "inProgress".to_string(),
        }]]
    );
}

#[test]
fn canonical_tool_lifecycle_keeps_the_call_id() {
    let mut sink = RecordingSink::default();
    let thread_id = 3;
    sink.record(
        thread_id,
        ModeKind::Default,
        EventMsg::ItemStarted(TurnItem::Other {
            legacy_events: vec![EventMsg::DynamicToolCallRequest {
                call_id: "call-1".to_string(),
                namespace: Some("workspace".to_string()),
                tool: "inspect".to_string(),
                tool_arguments: path_arguments(),
            }],
        }),
    );
    sink.record(
        thread_id,
        ModeKind::Default,
        EventMsg::ItemCompleted(TurnItem::Other {
            legacy_events: vec![EventMsg::DynamicToolCallResponse {
                call_id: "call-1".to_string(),
                tool: "inspect".to_string(),
                content_items: Some("[]".to_string()),
                success: true,
            }],
        }),
    );

    assert_eq!(sink.tool_calls.len(), 2);
    assert_eq!(sink.tool_calls[0].id, Some("call-1".to_string()));
    assert_eq!(sink.tool_calls[0].status, "running");
    assert_eq!(sink.tool_calls[1].id, Some("call-1".to_string()));
    assert_eq!(sink.tool_calls[1].status, "completed");
}

#[test]
fn tool_inputs_are_recorded_as_json() {
    let mut sink = RecordingSink::default();
    sink.record(
        4,
        ModeKind::Default,
        EventMsg::ExecCommandBegin {
            call_id: "c".to_string(),
            command: vec!["echo".to_string(), "\"x\"\n".to_string()],
            cwd: "/w".to_string(),
        },
    );
    assert_eq!(
        sink.tool_calls[0].input,
        "{\"callId\":\"c\",\"command\":[\"echo\",\"\\\"x\\\"\\n\"],\"cwd\":\"/w\"}"
    );
    sink.record(
        4,
        ModeKind::Default,
        EventMsg::McpToolCallBegin {
            call_id: "m".to_string(),
            server: "files".to_string(),
            tool: "read".to_string(),
            arguments: Some(path_arguments()),
        },
    );
    assert_eq!(
        sink.tool_calls[1].input,
        "{\"arguments\":{\"path\":\".\"},\"callId\":\"m\"}"
    );
    sink.record(
        4,
        ModeKind::Default,
        EventMsg::McpToolCallBegin {
            call_id: "n".to_string(),
            server: "files".to_string(),
            tool: "read".to_string(),
            arguments: None,
        },
    );
    assert_eq!(sink.tool_calls[2].input, "{\"arguments\":null,\"callId\":\"n\"}");
}

#[test]
fn ended_command_names_its_status() {
    for (status, name) in [
        (RunStatus::Completed, "completed"),
        (RunStatus::Failed, "failed"),
        (RunStatus::Declined, "declined"),
    ] {
        let mut sink = RecordingSink::default();
        sink.record(
            5,
            ModeKind::Default,
            EventMsg::ExecCommandEnd {
                call_id: "c".to_string(),
                command: vec!["ls".to_string()],
                formatted_output: "out".to_string(),
                status,
            },
        );
        assert_eq!(sink.tool_calls[0].status, name);
        assert_eq!(sink.tool_calls[0].output, Some("out".to_string()));
    }
}

#[test]
fn errors_and_reviews_show_in_the_activity() {
    let mut sink = RecordingSink::default();
    sink.record(6, ModeKind::Default, EventMsg::Error { message: "broken".to_string() });
    assert_eq!(sink.errors, vec!["broken".to_string()]);
    sink.record(6, ModeKind::Default, EventMsg::ExecApprovalRequest);
    assert_eq!(
        sink.activities.last().map(|entry| entry.0),
        Some(ActivityStatus::WaitingForApproval)
    );
    sink.record(6, ModeKind::Default, EventMsg::RequestUserInput);
    assert_eq!(
        sink.activities.last().map(|entry| entry.0),
        Some(ActivityStatus::WaitingForUserInput)
    );
    sink.record(
        6,
        ModeKind::Default,
        EventMsg::EnteredReviewMode { user_facing_hint: None },
    );
    assert_eq!(sink.activities.last().map(|entry| entry.1), Some(ProcessMode::Review));
}

#[test]
fn events_reach_the_installed_reporter_alone() {
    let mut slot = CurrentReporter { reporter: None };
    let event = EventMsg::ItemStarted(user_item());
    session::record_event(&mut slot, 9, ModeKind::Default, &event);
    assert!(slot.reporter.is_none());
    current::install_current_reporter(
        &mut slot,
        codex_supervisor::reporter::SupervisorReporter::new(),
    );
    session::record_event(&mut slot, 9, ModeKind::Default, &event);
    let reporter = slot.reporter.as_ref().expect("installed");
    assert_eq!(
        reporter.status().thread_id,
        Some("00000000-0000-0000-0000-000000000009".to_string())
    );
    let page = reporter.page(1, WorkSection::Messages, None, 5).expect("page");
    assert_eq!(page.items.len(), 1);
    assert_eq!(page.items[0].content, "inspect the supervisor");
}

#[test]
fn reports_reach_the_installed_reporter() {
    let mut slot = CurrentReporter::new();
    current::record_current_prompt(&mut slot, "lost".to_string());
    assert!(current::current_reporter(&slot).is_none());
    current::install_current_reporter(&mut slot, SupervisorReporter::new());
    current::report_current_thread_id(&mut slot, Some("thread-1".to_string()));
    current::report_current_activity(
        &mut slot,
        ActivityStatus::Thinking,
        ProcessMode::Plan,
        Some("planning".to_string()),
    );
    current::record_current_prompt(&mut slot, "inspect".to_string());
    current::record_current_plan_text(&mut slot, "1. look".to_string());
    current::append_current_plan_delta(&mut slot, "\n2. tell".to_string());
    current::record_current_plan(
        &mut slot,
        vec![PlanStep { step: "look".to_string(), status: "pending".to_string() }],
    );
    current::record_current_message(&mut slot, "user".to_string(), "hello".to_string());
    current::record_current_tool_call(
        &mut slot,
        "exec".to_string(),
        "ls".to_string(),
        None,
        "running".to_string(),
    );
    for status in ["running", "completed"] {
        current::record_current_tool_call_with_id(
            &mut slot,
            "call-1".to_string(),
            "exec".to_string(),
            "pwd".to_string(),
            None,
            status.to_string(),
        );
    }
    // The reporter that was installed first stays.
    current::install_current_reporter(&mut slot, SupervisorReporter::new());
    let reporter = current::current_reporter(&slot).expect("a reporter is installed");
    let status = reporter.status();
    assert_eq!(status.thread_id.as_deref(), Some("thread-1"));
    assert_eq!(status.activity, ActivityStatus::Thinking);
    assert_eq!(status.mode, ProcessMode::Plan);
    assert_eq!(status.summary.as_deref(), Some("planning"));
    let page = |section| reporter.page(5, section, None, 10).expect("a page is made");
    assert_eq!(page(WorkSection::Prompt).items[0].content, "inspect");
    let plan = page(WorkSection::Plan);
    assert_eq!(plan.plan_text.as_deref(), Some("1. look\n2. tell"));
    assert_eq!(plan.items[0].content, "look");
    let messages = page(WorkSection::Messages);
    assert_eq!((messages.items[0].title.as_str(), messages.items[0].content.as_str()), ("user", "hello"));
    assert!(messages.items[0].created_at.is_some());
    let calls = page(WorkSection::ToolCalls);
    assert_eq!(calls.items.len(), 2);
    assert_eq!(calls.items[0].id, None);
    assert_eq!(calls.items[1].id.as_deref(), Some("call-1"));
    assert_eq!(calls.items[1].status.as_deref(), Some("completed"));
    current::report_current_error(&mut slot, "broken".to_string());
    let status = current::current_reporter(&slot).expect("a reporter is installed").status();
    assert_eq!(status.activity, ActivityStatus::Error);
    assert_eq!(status.error.as_deref(), Some("broken"));
}

#[test]
fn all_who_report_share_the_first_reporter() {
    let mut slot = CurrentReporter::new();
    assert!(current::current_reporter_mut(&mut slot).is_none());
    let mut first = SupervisorReporter::new();
    first.set_prompt("first".to_string());
    current::install_current_reporter(&mut slot, first);
    let mut second = SupervisorReporter::new();
    second.set_prompt("second".to_string());
    current::install_current_reporter(&mut slot, second);
    let prompt = |slot: &CurrentReporter| {
        let reporter = current::current_reporter(slot).expect("a reporter is installed");
        reporter.page(5, WorkSection::Prompt, None, 10).expect("a page is made").items[0]
            .content
            .clone()
    };
    assert_eq!(prompt(&slot), "first");
    let handle = current::current_reporter_mut(&mut slot).expect("a reporter is installed");
    handle.set_prompt("through a handle".to_string());
    assert_eq!(prompt(&slot), "through a handle");
    current::record_current_prompt(&mut slot, "through the process".to_string());
    assert_eq!(prompt(&slot), "through the process");
}

#[test]
fn appended_tool_calls_stay_apart() {
    let mut reporter = SupervisorReporter::new();
    for _ in 0..2 {
        reporter.append_tool_call(ToolCallRecord {
            id: None,
            name: "exec".to_string(),
            input: "ls".to_string(),
            output: None,
            status: "completed".to_string(),
            created_at: Some(3),
        });
    }
    let page = reporter.page(5, WorkSection::ToolCalls, None, 10).expect("a page is made");
    assert_eq!(page.items.len(), 2);
    assert_eq!(page.items[0].created_at, Some(3));
}
