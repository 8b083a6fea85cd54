//! Projects the events of a session onto the state that its worker reports.
//!
//! One event becomes a list of updates, which are applied to the reporter in order. Messages come
//! from conversation items alone, so the older events that repeat an item add nothing.
use crate::current::{current_reporter_mut, CurrentReporter};
use crate::ids::ProcessId;
use crate::reporter::{Report, ReporterView, SupervisorReporter};
use crate::types::{
    ActivityStatus, PlanStep, PlanStepView, ProcessMode, ToolCallRecord, ToolCallRecordView,
    WorkMessage, WorkMessageView,
};
use crate::{ids, json, reporter, text, types};
use vstd::prelude::*;

verus! {

/// The collaboration mode of a session.
#[derive(Debug, Clone, Copy, PartialEq, Eq, Structural)]
pub enum ModeKind {
    Plan,
    Default,
}

/// The progress of a checklist step.
#[derive(Debug, Clone, Copy, PartialEq, Eq, Structural)]
pub enum StepStatus {
    Pending,
    InProgress,
    Completed,
}

/// How a command or a patch ended.
#[derive(Debug, Clone, Copy, PartialEq, Eq, Structural)]
pub enum RunStatus {
    Completed,
    Failed,
    Declined,
}

/// A checklist step of a plan update.
#[derive(Debug, PartialEq, Eq)]
pub struct PlanItemArg {
    pub step: String,
    pub status: StepStatus,
}

/// What a user said. The preview is the text that stands for the whole input, if it has one.
#[derive(Debug, PartialEq, Eq)]
pub struct UserMessageItem {
    pub preview: Option<String>,
}

/// What an agent said, in pieces.
#[derive(Debug, PartialEq, Eq)]
pub struct AgentMessageItem {
    pub content: Vec<String>,
}

/// A plan that an agent proposed.
#[derive(Debug, PartialEq, Eq)]
pub struct PlanItem {
    pub text: String,
}

/// An item of a turn. An item of another kind stands for the events that describe it.
#[derive(Debug, PartialEq, Eq)]
pub enum TurnItem {
    UserMessage(UserMessageItem),
    AgentMessage(AgentMessageItem),
    Plan(PlanItem),
    Other { legacy_events: Vec<EventMsg> },
}

/// An event of a session, with what the projection reads of it.
#[derive(Debug, PartialEq, Eq)]
pub enum EventMsg {
    ItemStarted(TurnItem),
    ItemCompleted(TurnItem),
    PlanDelta { delta: String },
    TurnStarted { collaboration_mode_kind: ModeKind },
    TurnComplete { error: Option<String> },
    TurnAborted { reason: String },
    Error { message: String },
    UserMessage { message: String },
    AgentMessage { message: String },
    AgentReasoning { text: String },
    AgentReasoningRawContent { text: String },
    AgentMessageContentDelta,
    ReasoningContentDelta,
    PlanUpdate { explanation: Option<String>, plan: Vec<PlanItemArg> },
    EnteredReviewMode { user_facing_hint: Option<String> },
    ExitedReviewMode,
    ExecCommandBegin { call_id: String, command: Vec<String>, cwd: String },
    ExecCommandEnd {
        call_id: String,
        command: Vec<String>,
        formatted_output: String,
        status: RunStatus,
    },
    McpToolCallBegin {
        call_id: String,
        server: String,
        tool: String,
        arguments: Option<serde_json::Value>,
    },
    McpToolCallEnd {
        call_id: String,
        server: String,
        tool: String,
        arguments: Option<serde_json::Value>,
        /// The result as JSON text where it can be written, or the error.
        result: Result<Option<String>, String>,
    },
    PatchApplyBegin { call_id: String, changes: serde_json::Value },
    PatchApplyEnd { call_id: String, stdout: String, stderr: String, status: RunStatus },
    DynamicToolCallRequest {
        call_id: String,
        namespace: Option<String>,
        tool: String,
        tool_arguments: serde_json::Value,
    },
    DynamicToolCallResponse {
        call_id: String,
        tool: String,
        /// The content as JSON text, where it can be written.
        content_items: Option<String>,
        success: bool,
    },
    ExecApprovalRequest,
    RequestPermissions,
    ApplyPatchApprovalRequest,
    ElicitationRequest,
    GuardianAssessment,
    RequestUserInput,
    StreamError { message: String },
    ShutdownComplete,
    Other,
}

/// One update of a reporter.
#[derive(Debug, PartialEq, Eq)]
pub enum SinkUpdate {
    ThreadId(Option<String>),
    Activity { activity: ActivityStatus, mode: ProcessMode, summary: Option<String> },
    Error(String),
    Prompt(String),
    PlanText(String),
    PlanDelta(String),
    Plan(Vec<PlanStep>),
    Message { role: String, content: String },
    ToolCall { id: String, name: String, input: String, output: Option<String>, status: String },
}

/// The view of [`SinkUpdate`].
#[verifier::ext_equal]
pub enum SinkUpdateView {
    ThreadId(Option<Seq<char>>),
    Activity { activity: ActivityStatus, mode: ProcessMode, summary: Option<Seq<char>> },
    Error(Seq<char>),
    Prompt(Seq<char>),
    PlanText(Seq<char>),
    PlanDelta(Seq<char>),
    Plan(Seq<PlanStepView>),
    Message { role: Seq<char>, content: Seq<char> },
    ToolCall {
        id: Seq<char>,
        name: Seq<char>,
        input: Seq<char>,
        output: Option<Seq<char>>,
        status: Seq<char>,
    },
}

impl View for SinkUpdate {
    type V = SinkUpdateView;

    open spec fn view(&self) -> SinkUpdateView {
        match self {
            SinkUpdate::ThreadId(thread_id) => SinkUpdateView::ThreadId(text::opt_text(*thread_id)),
            SinkUpdate::Activity { activity, mode, summary } => SinkUpdateView::Activity {
                activity: *activity,
                mode: *mode,
                summary: text::opt_text(*summary),
            },
            SinkUpdate::Error(error) => SinkUpdateView::Error(error@),
            SinkUpdate::Prompt(prompt) => SinkUpdateView::Prompt(prompt@),
            SinkUpdate::PlanText(plan_text) => SinkUpdateView::PlanText(plan_text@),
            SinkUpdate::PlanDelta(delta) => SinkUpdateView::PlanDelta(delta@),
            SinkUpdate::Plan(plan) => SinkUpdateView::Plan(types::plan_views(plan@)),
            SinkUpdate::Message { role, content } => SinkUpdateView::Message {
                role: role@,
                content: content@,
            },
            SinkUpdate::ToolCall { id, name, input, output, status } => SinkUpdateView::ToolCall {
                id: id@,
                name: name@,
                input: input@,
                output: text::opt_text(*output),
                status: status@,
            },
        }
    }
}

/// The views of some updates.
pub open spec fn update_views(updates: Seq<SinkUpdate>) -> Seq<SinkUpdateView> {
    Seq::new(updates.len(), |i: int| updates[i]@)
}

/// The process mode that a collaboration mode stands for.
pub open spec fn process_mode(mode: ModeKind) -> ProcessMode {
    match mode {
        ModeKind::Plan => ProcessMode::Plan,
        ModeKind::Default => ProcessMode::Default,
    }
}

/// The prompt of a user message: its preview, or nothing.
pub open spec fn prompt_text(message: UserMessageItem) -> Seq<char> {
    match message.preview {
        Some(preview) => preview@,
        None => Seq::empty(),
    }
}

/// The name of a step's progress.
pub open spec fn step_status_name(status: StepStatus) -> Seq<char> {
    match status {
        StepStatus::Pending => "pending"@,
        StepStatus::InProgress => "inProgress"@,
        StepStatus::Completed => "completed"@,
    }
}

/// The name of how something ended.
pub open spec fn run_status_name(status: RunStatus) -> Seq<char> {
    match status {
        RunStatus::Completed => "completed"@,
        RunStatus::Failed => "failed"@,
        RunStatus::Declined => "declined"@,
    }
}

/// The summary of a piece of reasoning: its text without white space around it, if there is any.
pub open spec fn reasoning_summary(reasoning: Seq<char>) -> Seq<char> {
    let value = text::trimmed(reasoning);
    if value.len() == 0 {
        "thinking"@
    } else {
        value
    }
}

/// A text, or another one in its place.
pub open spec fn or_text(value: Option<String>, other: Seq<char>) -> Option<Seq<char>> {
    match value {
        Some(value) => Some(value@),
        None => Some(other),
    }
}

/// The steps of a plan update as they are kept.
pub open spec fn plan_steps(plan: Seq<PlanItemArg>) -> Seq<PlanStepView> {
    Seq::new(
        plan.len(),
        |i: int|
            PlanStepView { step: plan[i].step@, status: step_status_name(plan[i].status) },
    )
}

/// An activity with a summary.
pub open spec fn activity_update(
    activity: ActivityStatus,
    mode: ProcessMode,
    summary: Seq<char>,
) -> SinkUpdateView {
    SinkUpdateView::Activity { activity, mode, summary: Some(summary) }
}

/// A list of texts as JSON.
pub open spec fn json_texts(values: Seq<Seq<char>>) -> Seq<char> {
    json::json_array_text(Seq::new(values.len(), |i: int| json::json_quoted(values[i])))
}

/// An optional value as JSON.
pub open spec fn json_or_null(value: Option<serde_json::Value>) -> Seq<char> {
    match value {
        Some(value) => json::json_text(value),
        None => "null"@,
    }
}

/// The recorded input of a tool call: its identifier alone.
#[verifier::opaque]
pub open spec fn call_input(call_id: Seq<char>) -> Seq<char> {
    json::json_object_text(seq![("callId"@, json::json_quoted(call_id))])
}

/// The recorded input of a command that starts.
#[verifier::opaque]
pub open spec fn exec_begin_input(
    call_id: Seq<char>,
    command: Seq<Seq<char>>,
    cwd: Seq<char>,
) -> Seq<char> {
    json::json_object_text(
        seq![
            ("callId"@, json::json_quoted(call_id)),
            ("command"@, json_texts(command)),
            ("cwd"@, json::json_quoted(cwd)),
        ],
    )
}

/// The recorded input of a command that ended.
#[verifier::opaque]
pub open spec fn exec_end_input(call_id: Seq<char>, command: Seq<Seq<char>>) -> Seq<char> {
    json::json_object_text(
        seq![("callId"@, json::json_quoted(call_id)), ("command"@, json_texts(command))],
    )
}

/// The recorded input of a call of an MCP tool.
#[verifier::opaque]
pub open spec fn mcp_input(call_id: Seq<char>, arguments: Option<serde_json::Value>) -> Seq<char> {
    json::json_object_text(
        seq![
            ("arguments"@, json_or_null(arguments)),
            ("callId"@, json::json_quoted(call_id)),
        ],
    )
}

/// The recorded input of a patch.
#[verifier::opaque]
pub open spec fn patch_input(call_id: Seq<char>, changes: serde_json::Value) -> Seq<char> {
    json::json_object_text(
        seq![
            ("callId"@, json::json_quoted(call_id)),
            ("changes"@, json::json_text(changes)),
        ],
    )
}

/// The recorded input of a call of a dynamic tool.
#[verifier::opaque]
pub open spec fn dynamic_input(
    call_id: Seq<char>,
    namespace: Option<Seq<char>>,
    arguments: serde_json::Value,
) -> Seq<char> {
    json::json_object_text(
        seq![
            ("arguments"@, json::json_text(arguments)),
            ("callId"@, json::json_quoted(call_id)),
            ("namespace"@, json::json_optional(namespace)),
        ],
    )
}

/// The recorded name of an MCP tool.
pub open spec fn mcp_name(server: Seq<char>, tool: Seq<char>) -> Seq<char> {
    "mcp:"@ + server + ":"@ + tool
}

/// What an event says about the activity of the worker and about its plan.
pub open spec fn activity_effects(current: ProcessMode, event: EventMsg) -> Seq<SinkUpdateView> {
    match event {
        EventMsg::PlanDelta { delta } => seq![
            SinkUpdateView::PlanDelta(delta@),
            activity_update(ActivityStatus::Thinking, ProcessMode::Plan, "streaming plan"@),
        ],
        EventMsg::TurnStarted { collaboration_mode_kind } => seq![
            activity_update(
                ActivityStatus::Thinking,
                process_mode(collaboration_mode_kind),
                "turn started"@,
            ),
        ],
        EventMsg::TurnComplete { error } => match error {
            Some(message) => seq![SinkUpdateView::Error(message@)],
            None => seq![activity_update(ActivityStatus::Idle, current, "turn completed"@)],
        },
        EventMsg::TurnAborted { reason } => seq![
            activity_update(ActivityStatus::Idle, current, "turn aborted: "@ + reason@),
        ],
        EventMsg::Error { message } => seq![SinkUpdateView::Error(message@)],
        EventMsg::AgentReasoning { text } => seq![
            activity_update(ActivityStatus::Thinking, current, reasoning_summary(text@)),
        ],
        EventMsg::AgentReasoningRawContent { text } => seq![
            activity_update(ActivityStatus::Thinking, current, reasoning_summary(text@)),
        ],
        EventMsg::AgentMessageContentDelta => seq![
            activity_update(ActivityStatus::Thinking, current, "streaming model output"@),
        ],
        EventMsg::ReasoningContentDelta => seq![
            activity_update(ActivityStatus::Thinking, current, "streaming model output"@),
        ],
        EventMsg::PlanUpdate { explanation, plan } => seq![
            SinkUpdateView::Plan(plan_steps(plan@)),
            SinkUpdateView::Activity {
                activity: ActivityStatus::Thinking,
                mode: current,
                summary: or_text(explanation, "plan updated"@),
            },
        ],
        EventMsg::EnteredReviewMode { user_facing_hint } => seq![
            SinkUpdateView::Activity {
                activity: ActivityStatus::Thinking,
                mode: ProcessMode::Review,
                summary: or_text(user_facing_hint, "review mode"@),
            },
        ],
        EventMsg::ExitedReviewMode => seq![
            activity_update(ActivityStatus::Thinking, current, "left review mode"@),
        ],
        EventMsg::ExecApprovalRequest
        | EventMsg::RequestPermissions
        | EventMsg::ApplyPatchApprovalRequest
        | EventMsg::ElicitationRequest
        | EventMsg::GuardianAssessment => seq![
            activity_update(
                ActivityStatus::WaitingForApproval,
                current,
                "waiting for approval"@,
            ),
        ],
        EventMsg::RequestUserInput => seq![
            activity_update(
                ActivityStatus::WaitingForUserInput,
                current,
                "waiting for user input"@,
            ),
        ],
        EventMsg::StreamError { message } => seq![SinkUpdateView::Error(message@)],
        EventMsg::ShutdownComplete => seq![
            activity_update(ActivityStatus::Idle, current, "shutdown complete"@),
        ],
        _ => Seq::empty(),
    }
}

/// What an event says about a tool call.
pub open spec fn tool_effects(current: ProcessMode, event: EventMsg) -> Seq<SinkUpdateView> {
    match event {
        EventMsg::ExecCommandBegin { call_id, command, cwd } => seq![
            SinkUpdateView::ToolCall {
                id: call_id@,
                name: "exec"@,
                input: exec_begin_input(call_id@, text::texts(command@), cwd@),
                output: None,
                status: "running"@,
            },
            activity_update(
                ActivityStatus::ExecutingTool,
                current,
                text::joined(text::texts(command@), " "@),
            ),
        ],
        EventMsg::ExecCommandEnd { call_id, command, formatted_output, status } => seq![
            SinkUpdateView::ToolCall {
                id: call_id@,
                name: "exec"@,
                input: exec_end_input(call_id@, text::texts(command@)),
                output: Some(formatted_output@),
                status: run_status_name(status),
            },
            activity_update(ActivityStatus::Thinking, current, "tool completed"@),
        ],
        EventMsg::McpToolCallBegin { call_id, server, tool, arguments } => seq![
            SinkUpdateView::ToolCall {
                id: call_id@,
                name: mcp_name(server@, tool@),
                input: mcp_input(call_id@, arguments),
                output: None,
                status: "running"@,
            },
            activity_update(
                ActivityStatus::ExecutingTool,
                current,
                "MCP tool "@ + server@ + ":"@ + tool@,
            ),
        ],
        EventMsg::McpToolCallEnd { call_id, server, tool, arguments, result } => seq![
            SinkUpdateView::ToolCall {
                id: call_id@,
                name: mcp_name(server@, tool@),
                input: mcp_input(call_id@, arguments),
                output: match result {
                    Ok(output) => text::opt_text(output),
                    Err(error) => Some(error@),
                },
                status: match result {
                    Ok(_) => "completed"@,
                    Err(_) => "failed"@,
                },
            },
            activity_update(ActivityStatus::Thinking, current, "MCP tool completed"@),
        ],
        EventMsg::PatchApplyBegin { call_id, changes } => seq![
            SinkUpdateView::ToolCall {
                id: call_id@,
                name: "apply_patch"@,
                input: patch_input(call_id@, changes),
                output: None,
                status: "running"@,
            },
            activity_update(ActivityStatus::ExecutingTool, current, "applying patch"@),
        ],
        EventMsg::PatchApplyEnd { call_id, stdout, stderr, status } => seq![
            SinkUpdateView::ToolCall {
                id: call_id@,
                name: "apply_patch"@,
                input: call_input(call_id@),
                output: Some(
                    if stderr@.len() == 0 {
                        stdout@
                    } else {
                        stderr@
                    },
                ),
                status: run_status_name(status),
            },
            activity_update(ActivityStatus::Thinking, current, "patch completed"@),
        ],
        EventMsg::DynamicToolCallRequest { call_id, namespace, tool, tool_arguments } => seq![
            SinkUpdateView::ToolCall {
                id: call_id@,
                name: tool@,
                input: dynamic_input(call_id@, text::opt_text(namespace), tool_arguments),
                output: None,
                status: "running"@,
            },
            activity_update(
                ActivityStatus::ExecutingTool,
                current,
                "dynamic tool "@ + tool@,
            ),
        ],
        EventMsg::DynamicToolCallResponse { call_id, tool, content_items, success } => seq![
            SinkUpdateView::ToolCall {
                id: call_id@,
                name: tool@,
                input: call_input(call_id@),
                output: text::opt_text(content_items),
                status: if success {
                    "completed"@
                } else {
                    "failed"@
                },
            },
            activity_update(ActivityStatus::Thinking, current, "dynamic tool completed"@),
        ],
        _ => Seq::empty(),
    }
}

/// The updates that one event causes: first the thread, then what the event says.
pub open spec fn event_updates(thread: Seq<char>, mode: ModeKind, event: EventMsg) -> Seq<
    SinkUpdateView,
>
    decreases event, 0nat,
{
    let current = process_mode(mode);
    let effects = match event {
        EventMsg::ItemStarted(item) => match item {
            TurnItem::UserMessage(message) => seq![
                SinkUpdateView::Prompt(prompt_text(message)),
                SinkUpdateView::Message { role: "user"@, content: prompt_text(message) },
                activity_update(ActivityStatus::Thinking, current, "processing user input"@),
            ],
            TurnItem::AgentMessage(_) => seq![
                activity_update(ActivityStatus::Thinking, current, "generating response"@),
            ],
            TurnItem::Plan(_) => seq![
                SinkUpdateView::PlanText(Seq::empty()),
                activity_update(ActivityStatus::Thinking, ProcessMode::Plan, "generating plan"@),
            ],
            TurnItem::Other { legacy_events } => list_updates(
                thread,
                mode,
                legacy_events@,
                legacy_events@.len(),
            ),
        },
        EventMsg::ItemCompleted(item) => match item {
            TurnItem::UserMessage(message) => seq![SinkUpdateView::Prompt(prompt_text(message))],
            TurnItem::AgentMessage(message) => seq![
                SinkUpdateView::Message {
                    role: "assistant"@,
                    content: text::joined(text::texts(message.content@), ""@),
                },
                activity_update(ActivityStatus::Thinking, current, "generating response"@),
            ],
            TurnItem::Plan(plan) => seq![SinkUpdateView::PlanText(plan.text@)],
            TurnItem::Other { legacy_events } => list_updates(
                thread,
                mode,
                legacy_events@,
                legacy_events@.len(),
            ),
        },
        _ => activity_effects(current, event) + tool_effects(current, event),
    };
    seq![SinkUpdateView::ThreadId(Some(thread))] + effects
}

/// The updates that the first `count` events cause, one after the other.
pub open spec fn list_updates(
    thread: Seq<char>,
    mode: ModeKind,
    events: Seq<EventMsg>,
    count: nat,
) -> Seq<SinkUpdateView>
    decreases events, count,
{
    if count == 0 || count > events.len() {
        Seq::empty()
    } else {
        list_updates(thread, mode, events, (count - 1) as nat) + event_updates(
            thread,
            mode,
            events[count - 1],
        )
    }
}

/// The process mode that a collaboration mode stands for.
pub fn map_process_mode(mode: ModeKind) -> (r: ProcessMode)
    ensures
        r == process_mode(mode),
{
    match mode {
        ModeKind::Plan => ProcessMode::Plan,
        ModeKind::Default => ProcessMode::Default,
    }
}

/// The prompt of a user message.
pub fn user_prompt(message: &UserMessageItem) -> (r: String)
    ensures
        r@ == prompt_text(*message),
{
    match &message.preview {
        Some(preview) => preview.clone(),
        None => String::new(),
    }
}

/// The text of an agent message: its pieces one after the other.
pub fn agent_message_text(message: &AgentMessageItem) -> (r: String)
    ensures
        r@ == text::joined(text::texts(message.content@), ""@),
{
    text::join(&message.content, "")
}

/// The name of a step's progress.
pub fn step_status(status: StepStatus) -> (r: String)
    ensures
        r@ == step_status_name(status),
{
    match status {
        StepStatus::Pending => "pending".to_owned(),
        StepStatus::InProgress => "inProgress".to_owned(),
        StepStatus::Completed => "completed".to_owned(),
    }
}

/// The name of how something ended.
fn run_status(status: RunStatus) -> (r: String)
    ensures
        r@ == run_status_name(status),
{
    match status {
        RunStatus::Completed => "completed".to_owned(),
        RunStatus::Failed => "failed".to_owned(),
        RunStatus::Declined => "declined".to_owned(),
    }
}

/// The summary of a piece of reasoning.
pub fn bound_summary(value: &str) -> (r: String)
    ensures
        r@ == reasoning_summary(value@),
{
    let value = text::trim(value);
    if text::is_empty(value) {
        "thinking".to_owned()
    } else {
        value.to_owned()
    }
}

/// The steps of a plan update as they are kept.
fn plan_update_steps(plan: &Vec<PlanItemArg>) -> (r: Vec<PlanStep>)
    ensures
        types::plan_views(r@) == plan_steps(plan@),
{
    let mut steps: Vec<PlanStep> = Vec::new();
    let mut i: usize = 0;
    while i < plan.len()
        invariant
            i <= plan@.len(),
            steps@.len() == i,
            forall|j: int| 0 <= j < i ==> (#[trigger] steps@[j])@ == plan_steps(plan@)[j],
        decreases plan@.len() - i,
    {
        steps.push(PlanStep { step: plan[i].step.clone(), status: step_status(plan[i].status) });
        i = i + 1;
    }
    assert(types::plan_views(steps@) =~= plan_steps(plan@));
    steps
}

/// A list of texts as a JSON value.
fn texts_value(values: &Vec<String>) -> (r: serde_json::Value)
    ensures
        json::json_text(r) == json_texts(text::texts(values@)),
{
    let mut items: Vec<serde_json::Value> = Vec::new();
    let mut i: usize = 0;
    while i < values.len()
        invariant
            i <= values@.len(),
            items@.len() == i,
            forall|j: int|
                0 <= j < i ==> json::json_text(#[trigger] items@[j]) == json::json_quoted(
                    values@[j]@,
                ),
        decreases values@.len() - i,
    {
        items.push(json::json_string(values[i].as_str()));
        i = i + 1;
    }
    let ghost views = text::texts(values@);
    assert(json::value_texts(items@) =~= Seq::new(
        views.len(),
        |i: int| json::json_quoted(views[i]),
    ));
    json::json_array(items)
}

/// An optional JSON value, with `null` for none.
fn value_or_null(value: &Option<serde_json::Value>) -> (r: serde_json::Value)
    ensures
        json::json_text(r) == json_or_null(*value),
{
    match value {
        Some(value) => json::json_clone(value),
        None => json::json_null(),
    }
}

/// The keys of recorded inputs stand in the order in which an object prints them.
proof fn lemma_input_keys_ascend()
    ensures
        json::key_less("callId"@, "command"@),
        json::key_less("command"@, "cwd"@),
        json::key_less("arguments"@, "callId"@),
        json::key_less("callId"@, "changes"@),
        json::key_less("callId"@, "namespace"@),
{
    reveal_strlit("callId");
    reveal_strlit("command");
    reveal_strlit("cwd");
    reveal_strlit("arguments");
    reveal_strlit("changes");
    reveal_strlit("namespace");
    reveal_with_fuel(json::key_less, 3);
}

/// Writes the recorded input of a tool call with its identifier alone.
fn call_input_text(call_id: &String) -> (r: String)
    ensures
        r@ == call_input(call_id@),
{
    proof {
        reveal(call_input);
    }
    let mut fields: Vec<(String, serde_json::Value)> = Vec::new();
    fields.push(("callId".to_owned(), json::json_string(call_id.as_str())));
    assert(json::field_texts(fields@) =~= seq![("callId"@, json::json_quoted(call_id@))]);
    json::json_print(&json::json_object(fields))
}

/// Writes the recorded input of a command that starts.
fn exec_begin_text(call_id: &String, command: &Vec<String>, cwd: &String) -> (r: String)
    ensures
        r@ == exec_begin_input(call_id@, text::texts(command@), cwd@),
{
    proof {
        reveal(exec_begin_input);
    }
    let mut fields: Vec<(String, serde_json::Value)> = Vec::new();
    fields.push(("callId".to_owned(), json::json_string(call_id.as_str())));
    fields.push(("command".to_owned(), texts_value(command)));
    fields.push(("cwd".to_owned(), json::json_string(cwd.as_str())));
    proof {
        lemma_input_keys_ascend();
        assert(json::field_keys(fields@) =~= seq!["callId"@, "command"@, "cwd"@]);
        assert(json::field_texts(fields@) =~= seq![
            ("callId"@, json::json_quoted(call_id@)),
            ("command"@, json_texts(text::texts(command@))),
            ("cwd"@, json::json_quoted(cwd@)),
        ]);
    }
    json::json_print(&json::json_object(fields))
}

/// Writes the recorded input of a command that ended.
fn exec_end_text(call_id: &String, command: &Vec<String>) -> (r: String)
    ensures
        r@ == exec_end_input(call_id@, text::texts(command@)),
{
    proof {
        reveal(exec_end_input);
    }
    let mut fields: Vec<(String, serde_json::Value)> = Vec::new();
    fields.push(("callId".to_owned(), json::json_string(call_id.as_str())));
    fields.push(("command".to_owned(), texts_value(command)));
    proof {
        lemma_input_keys_ascend();
        assert(json::field_keys(fields@) =~= seq!["callId"@, "command"@]);
        assert(json::field_texts(fields@) =~= seq![
            ("callId"@, json::json_quoted(call_id@)),
            ("command"@, json_texts(text::texts(command@))),
        ]);
    }
    json::json_print(&json::json_object(fields))
}

/// Writes the recorded input of a call of an MCP tool.
fn mcp_text(call_id: &String, arguments: &Option<serde_json::Value>) -> (r: String)
    ensures
        r@ == mcp_input(call_id@, *arguments),
{
    proof {
        reveal(mcp_input);
    }
    let mut fields: Vec<(String, serde_json::Value)> = Vec::new();
    fields.push(("arguments".to_owned(), value_or_null(arguments)));
    fields.push(("callId".to_owned(), json::json_string(call_id.as_str())));
    proof {
        lemma_input_keys_ascend();
        assert(json::field_keys(fields@) =~= seq!["arguments"@, "callId"@]);
        assert(json::field_texts(fields@) =~= seq![
            ("arguments"@, json_or_null(*arguments)),
            ("callId"@, json::json_quoted(call_id@)),
        ]);
    }
    json::json_print(&json::json_object(fields))
}

/// Writes the recorded input of a patch.
fn patch_text(call_id: &String, changes: &serde_json::Value) -> (r: String)
    ensures
        r@ == patch_input(call_id@, *changes),
{
    proof {
        reveal(patch_input);
    }
    let mut fields: Vec<(String, serde_json::Value)> = Vec::new();
    fields.push(("callId".to_owned(), json::json_string(call_id.as_str())));
    fields.push(("changes".to_owned(), json::json_clone(changes)));
    proof {
        lemma_input_keys_ascend();
        assert(json::field_keys(fields@) =~= seq!["callId"@, "changes"@]);
        assert(json::field_texts(fields@) =~= seq![
            ("callId"@, json::json_quoted(call_id@)),
            ("changes"@, json::json_text(*changes)),
        ]);
    }
    json::json_print(&json::json_object(fields))
}

/// Writes the recorded input of a call of a dynamic tool.
fn dynamic_text(
    call_id: &String,
    namespace: &Option<String>,
    arguments: &serde_json::Value,
) -> (r: String)
    ensures
        r@ == dynamic_input(call_id@, text::opt_text(*namespace), *arguments),
{
    proof {
        reveal(dynamic_input);
    }
    let mut fields: Vec<(String, serde_json::Value)> = Vec::new();
    fields.push(("arguments".to_owned(), json::json_clone(arguments)));
    fields.push(("callId".to_owned(), json::json_string(call_id.as_str())));
    fields.push(("namespace".to_owned(), json::json_optional_string(namespace)));
    proof {
        lemma_input_keys_ascend();
        assert(json::field_keys(fields@) =~= seq!["arguments"@, "callId"@, "namespace"@]);
        assert(json::field_texts(fields@) =~= seq![
            ("arguments"@, json::json_text(*arguments)),
            ("callId"@, json::json_quoted(call_id@)),
            ("namespace"@, json::json_optional(text::opt_text(*namespace))),
        ]);
    }
    json::json_print(&json::json_object(fields))
}

/// The recorded name of an MCP tool.
fn mcp_tool_name(server: &String, tool: &String) -> (r: String)
    ensures
        r@ == mcp_name(server@, tool@),
{
    "mcp:".to_owned().concat(server.as_str()).concat(":").concat(tool.as_str())
}

/// A text, or another one in its place.
fn text_or(value: &Option<String>, other: &str) -> (r: Option<String>)
    ensures
        text::opt_text(r) == or_text(*value, other@),
{
    match value {
        Some(value) => Some(value.clone()),
        None => Some(other.to_owned()),
    }
}

/// An activity with a summary.
fn activity(status: ActivityStatus, mode: ProcessMode, summary: String) -> (r: SinkUpdate)
    ensures
        r@ == activity_update(status, mode, summary@),
{
    SinkUpdate::Activity { activity: status, mode, summary: Some(summary) }
}

/// No update.
fn no_updates() -> (r: Vec<SinkUpdate>)
    ensures
        update_views(r@) == Seq::<SinkUpdateView>::empty(),
{
    let out: Vec<SinkUpdate> = Vec::new();
    assert(update_views(out@) =~= Seq::empty());
    out
}

/// One update.
fn one_update(update: SinkUpdate) -> (r: Vec<SinkUpdate>)
    ensures
        update_views(r@) == seq![update@],
{
    let mut out: Vec<SinkUpdate> = Vec::new();
    out.push(update);
    assert(update_views(out@) =~= seq![update@]);
    out
}

/// Two updates, one after the other.
fn two_updates(first: SinkUpdate, second: SinkUpdate) -> (r: Vec<SinkUpdate>)
    ensures
        update_views(r@) == seq![first@, second@],
{
    let mut out: Vec<SinkUpdate> = Vec::new();
    out.push(first);
    out.push(second);
    assert(update_views(out@) =~= seq![first@, second@]);
    out
}

/// What an event says about the activity of the worker and about its plan.
fn project_activity(current: ProcessMode, event: &EventMsg) -> (r: Vec<SinkUpdate>)
    ensures
        update_views(r@) == activity_effects(current, *event),
{
    match event {
        EventMsg::PlanDelta { delta } => {
            two_updates(SinkUpdate::PlanDelta(delta.clone()), activity(
                    ActivityStatus::Thinking,
                    ProcessMode::Plan,
                    "streaming plan".to_owned(),
                ))
        },
        EventMsg::TurnStarted { collaboration_mode_kind } => {
            one_update(activity(
                    ActivityStatus::Thinking,
                    map_process_mode(*collaboration_mode_kind),
                    "turn started".to_owned(),
                ))
        },
        EventMsg::TurnComplete { error } => match error {
            Some(message) => {
                one_update(SinkUpdate::Error(message.clone()))
            },
            None => {
                one_update(activity(ActivityStatus::Idle, current, "turn completed".to_owned()))
            },
        },
        EventMsg::TurnAborted { reason } => {
            one_update(activity(
                    ActivityStatus::Idle,
                    current,
                    "turn aborted: ".to_owned().concat(reason.as_str()),
                ))
        },
        EventMsg::Error { message } => {
            one_update(SinkUpdate::Error(message.clone()))
        },
        EventMsg::AgentReasoning { text } => {
            one_update(activity(ActivityStatus::Thinking, current, bound_summary(text.as_str())))
        },
        EventMsg::AgentReasoningRawContent { text } => {
            one_update(activity(ActivityStatus::Thinking, current, bound_summary(text.as_str())))
        },
        EventMsg::AgentMessageContentDelta => {
            one_update(activity(ActivityStatus::Thinking, current, "streaming model output".to_owned()))
        },
        EventMsg::ReasoningContentDelta => {
            one_update(activity(ActivityStatus::Thinking, current, "streaming model output".to_owned()))
        },
        EventMsg::PlanUpdate { explanation, plan } => {
            two_updates(SinkUpdate::Plan(plan_update_steps(plan)), SinkUpdate::Activity {
                    activity: ActivityStatus::Thinking,
                    mode: current,
                    summary: text_or(explanation, "plan updated"),
                })
        },
        EventMsg::EnteredReviewMode { user_facing_hint } => {
            one_update(SinkUpdate::Activity {
                    activity: ActivityStatus::Thinking,
                    mode: ProcessMode::Review,
                    summary: text_or(user_facing_hint, "review mode"),
                })
        },
        EventMsg::ExitedReviewMode => {
            one_update(activity(ActivityStatus::Thinking, current, "left review mode".to_owned()))
        },
        EventMsg::ExecApprovalRequest
        | EventMsg::RequestPermissions
        | EventMsg::ApplyPatchApprovalRequest
        | EventMsg::ElicitationRequest
        | EventMsg::GuardianAssessment => {
            one_update(activity(
                    ActivityStatus::WaitingForApproval,
                    current,
                    "waiting for approval".to_owned(),
                ))
        },
        EventMsg::RequestUserInput => {
            one_update(activity(
                    ActivityStatus::WaitingForUserInput,
                    current,
                    "waiting for user input".to_owned(),
                ))
        },
        // The stream may be retried, but right now it failed.
        EventMsg::StreamError { message } => {
            one_update(SinkUpdate::Error(message.clone()))
        },
        EventMsg::ShutdownComplete => {
            one_update(activity(ActivityStatus::Idle, current, "shutdown complete".to_owned()))
        },
        _ => no_updates(),
    }
}

/// What an event says about a tool call.
fn project_tool(current: ProcessMode, event: &EventMsg) -> (r: Vec<SinkUpdate>)
    ensures
        update_views(r@) == tool_effects(current, *event),
{
    match event {
        EventMsg::ExecCommandBegin { call_id, command, cwd } => {
            two_updates(SinkUpdate::ToolCall {
                    id: call_id.clone(),
                    name: "exec".to_owned(),
                    input: exec_begin_text(call_id, command, cwd),
                    output: None,
                    status: "running".to_owned(),
                }, activity(ActivityStatus::ExecutingTool, current, text::join(command, " ")))
        },
        EventMsg::ExecCommandEnd { call_id, command, formatted_output, status } => {
            two_updates(SinkUpdate::ToolCall {
                    id: call_id.clone(),
                    name: "exec".to_owned(),
                    input: exec_end_text(call_id, command),
                    output: Some(formatted_output.clone()),
                    status: run_status(*status),
                }, activity(ActivityStatus::Thinking, current, "tool completed".to_owned()))
        },
        EventMsg::McpToolCallBegin { call_id, server, tool, arguments } => {
            two_updates(SinkUpdate::ToolCall {
                    id: call_id.clone(),
                    name: mcp_tool_name(server, tool),
                    input: mcp_text(call_id, arguments),
                    output: None,
                    status: "running".to_owned(),
                }, activity(
                    ActivityStatus::ExecutingTool,
                    current,
                    "MCP tool ".to_owned().concat(server.as_str()).concat(":").concat(
                        tool.as_str(),
                    ),
                ))
        },
        EventMsg::McpToolCallEnd { call_id, server, tool, arguments, result } => {
            let (output, status) = match result {
                Ok(output) => (text::clone_optional(output), "completed".to_owned()),
                Err(error) => (Some(error.clone()), "failed".to_owned()),
            };
            two_updates(SinkUpdate::ToolCall {
                    id: call_id.clone(),
                    name: mcp_tool_name(server, tool),
                    input: mcp_text(call_id, arguments),
                    output,
                    status,
                }, activity(ActivityStatus::Thinking, current, "MCP tool completed".to_owned()))
        },
        EventMsg::PatchApplyBegin { call_id, changes } => {
            two_updates(SinkUpdate::ToolCall {
                    id: call_id.clone(),
                    name: "apply_patch".to_owned(),
                    input: patch_text(call_id, changes),
                    output: None,
                    status: "running".to_owned(),
                }, activity(ActivityStatus::ExecutingTool, current, "applying patch".to_owned()))
        },
        EventMsg::PatchApplyEnd { call_id, stdout, stderr, status } => {
            let output = if text::is_empty(stderr.as_str()) {
                stdout.clone()
            } else {
                stderr.clone()
            };
            two_updates(SinkUpdate::ToolCall {
                    id: call_id.clone(),
                    name: "apply_patch".to_owned(),
                    input: call_input_text(call_id),
                    output: Some(output),
                    status: run_status(*status),
                }, activity(ActivityStatus::Thinking, current, "patch completed".to_owned()))
        },
        EventMsg::DynamicToolCallRequest { call_id, namespace, tool, tool_arguments } => {
            two_updates(SinkUpdate::ToolCall {
                    id: call_id.clone(),
                    name: tool.clone(),
                    input: dynamic_text(call_id, namespace, tool_arguments),
                    output: None,
                    status: "running".to_owned(),
                }, activity(
                    ActivityStatus::ExecutingTool,
                    current,
                    "dynamic tool ".to_owned().concat(tool.as_str()),
                ))
        },
        EventMsg::DynamicToolCallResponse { call_id, tool, content_items, success } => {
            let status = if *success {
                "completed".to_owned()
            } else {
                "failed".to_owned()
            };
            two_updates(SinkUpdate::ToolCall {
                    id: call_id.clone(),
                    name: tool.clone(),
                    input: call_input_text(call_id),
                    output: text::clone_optional(content_items),
                    status,
                }, activity(ActivityStatus::Thinking, current, "dynamic tool completed".to_owned()))
        },
        _ => no_updates(),
    }
}

/// Projects one event onto the updates that it causes.
pub fn record_event_with_sink(thread_id: ProcessId, mode: ModeKind, event: &EventMsg) -> (r: Vec<SinkUpdate>)
    ensures
        update_views(r@) == event_updates(ids::id_text(thread_id), mode, *event),
    decreases *event, 0nat,
{
    let current = map_process_mode(mode);
    let mut out: Vec<SinkUpdate> = Vec::new();
    out.push(SinkUpdate::ThreadId(Some(ids::id_to_text(thread_id))));
    match event {
        EventMsg::ItemStarted(item) => match item {
            TurnItem::UserMessage(message) => {
                let prompt = user_prompt(message);
                out.push(SinkUpdate::Prompt(prompt.clone()));
                out.push(SinkUpdate::Message { role: "user".to_owned(), content: prompt });
                out.push(
                    activity(
                        ActivityStatus::Thinking,
                        current,
                        "processing user input".to_owned(),
                    ),
                );
            },
            TurnItem::AgentMessage(_) => {
                out.push(
                    activity(ActivityStatus::Thinking, current, "generating response".to_owned()),
                );
            },
            TurnItem::Plan(_) => {
                // A new plan starts empty, so that the text of an earlier plan is not taken for it.
                out.push(SinkUpdate::PlanText(String::new()));
                out.push(
                    activity(
                        ActivityStatus::Thinking,
                        ProcessMode::Plan,
                        "generating plan".to_owned(),
                    ),
                );
            },
            TurnItem::Other { legacy_events } => {
                let mut legacy = record_event_with_sinks(
                    thread_id,
                    mode,
                    legacy_events,
                    legacy_events.len(),
                );
                out.append(&mut legacy);
            },
        },
        EventMsg::ItemCompleted(item) => match item {
            TurnItem::UserMessage(message) => {
                // The message was recorded when the item started.
                out.push(SinkUpdate::Prompt(user_prompt(message)));
            },
            TurnItem::AgentMessage(message) => {
                out.push(
                    SinkUpdate::Message {
                        role: "assistant".to_owned(),
                        content: agent_message_text(message),
                    },
                );
                out.push(
                    activity(ActivityStatus::Thinking, current, "generating response".to_owned()),
                );
            },
            TurnItem::Plan(plan) => {
                out.push(SinkUpdate::PlanText(plan.text.clone()));
            },
            TurnItem::Other { legacy_events } => {
                let mut legacy = record_event_with_sinks(
                    thread_id,
                    mode,
                    legacy_events,
                    legacy_events.len(),
                );
                out.append(&mut legacy);
            },
        },
        _ => {
            let mut effects = project_activity(current, event);
            let mut calls = project_tool(current, event);
            out.append(&mut effects);
            out.append(&mut calls);
        },
    }
    assert(update_views(out@) =~= event_updates(ids::id_text(thread_id), mode, *event));
    out
}

/// Projects the first `count` events, one after the other.
fn record_event_with_sinks(
    thread_id: ProcessId,
    mode: ModeKind,
    events: &Vec<EventMsg>,
    count: usize,
) -> (r: Vec<SinkUpdate>)
    requires
        count <= events@.len(),
    ensures
        update_views(r@) == list_updates(ids::id_text(thread_id), mode, events@, count as nat),
    decreases events@, count,
{
    if count == 0 {
        let out: Vec<SinkUpdate> = Vec::new();
        assert(update_views(out@) =~= Seq::empty());
        out
    } else {
        let mut out = record_event_with_sinks(thread_id, mode, events, count - 1);
        let mut last = record_event_with_sink(thread_id, mode, &events[count - 1]);
        let ghost before = update_views(out@);
        let ghost added = update_views(last@);
        out.append(&mut last);
        assert(update_views(out@) =~= before + added);
        out
    }
}

/// The state after one update, made at `now`. Entries without a time get `created`.
#[verifier::opaque]
pub open spec fn applied(
    state: ReporterView,
    update: SinkUpdateView,
    created: i64,
    now: i64,
) -> ReporterView {
    match update {
        SinkUpdateView::ThreadId(thread_id) => state.with_thread_id(thread_id, now),
        SinkUpdateView::Activity { activity, mode, summary } => state.with_activity(
            activity,
            mode,
            summary,
            now,
        ),
        SinkUpdateView::Error(error) => state.with_error(error, now),
        SinkUpdateView::Prompt(prompt) => state.with_prompt(prompt, now),
        SinkUpdateView::PlanText(plan_text) => state.with_plan_text(plan_text, now),
        SinkUpdateView::PlanDelta(delta) => state.with_plan_delta(delta, now),
        SinkUpdateView::Plan(plan) => state.with_plan(plan, now),
        SinkUpdateView::Message { role, content } => state.with_message(
            WorkMessageView { role, content, created_at: None },
            created,
            now,
        ),
        SinkUpdateView::ToolCall { id, name, input, output, status } => state.with_tool_call(
            ToolCallRecordView { id: Some(id), name, input, output, status, created_at: None },
            created,
            now,
        ),
    }
}

/// The state after some updates, each made at its own times.
pub open spec fn applied_all(
    state: ReporterView,
    updates: Seq<SinkUpdateView>,
    times: Seq<(i64, i64)>,
) -> ReporterView
    decreases updates.len(),
{
    if updates.len() == 0 {
        state
    } else {
        applied(
            applied_all(state, updates.drop_last(), times.drop_last()),
            updates.last(),
            times.last().0,
            times.last().1,
        )
    }
}

/// Applies one update to a reporter.
pub fn apply_update(reporter: &mut SupervisorReporter, update: SinkUpdate)
    ensures
        exists|created: i64, now: i64|
            final(reporter)@ == #[trigger] applied(old(reporter)@, update@, created, now),
        old(reporter)@.well_formed() ==> final(reporter)@.well_formed(),
{
    let ghost before = reporter@;
    let ghost view = update@;
    proof {
        reveal(applied);
    }
    match update {
        SinkUpdate::ThreadId(thread_id) => {
            reporter.set_thread_id(thread_id);
            proof {
                let now = choose|now: i64|
                    reporter@ == before.with_thread_id(text::opt_text(thread_id), now);
                assert(reporter@ == applied(before, view, 0, now));
            }
        },
        SinkUpdate::Activity { activity, mode, summary } => {
            reporter.set_activity(activity, mode, summary);
            proof {
                let now = choose|now: i64|
                    reporter@ == before.with_activity(activity, mode, text::opt_text(summary), now);
                assert(reporter@ == applied(before, view, 0, now));
            }
        },
        SinkUpdate::Error(error) => {
            reporter.set_error(error);
            proof {
                let now = choose|now: i64| reporter@ == before.with_error(error@, now);
                assert(reporter@ == applied(before, view, 0, now));
            }
        },
        SinkUpdate::Prompt(prompt) => {
            reporter.set_prompt(prompt);
            proof {
                let now = choose|now: i64| reporter@ == before.with_prompt(prompt@, now);
                assert(reporter@ == applied(before, view, 0, now));
            }
        },
        SinkUpdate::PlanText(plan_text) => {
            reporter.set_plan_text(plan_text);
            proof {
                let now = choose|now: i64| reporter@ == before.with_plan_text(plan_text@, now);
                assert(reporter@ == applied(before, view, 0, now));
            }
        },
        SinkUpdate::PlanDelta(delta) => {
            reporter.append_plan_delta(delta);
            proof {
                let now = choose|now: i64| reporter@ == before.with_plan_delta(delta@, now);
                assert(reporter@ == applied(before, view, 0, now));
            }
        },
        SinkUpdate::Plan(plan) => {
            reporter.set_plan(plan);
            proof {
                let now = choose|now: i64|
                    reporter@ == before.with_plan(types::plan_views(plan@), now);
                assert(reporter@ == applied(before, view, 0, now));
            }
        },
        SinkUpdate::Message { role, content } => {
            let message = WorkMessage { role, content, created_at: None };
            reporter.append_message(message);
            proof {
                let (created, now) = choose|created: i64, now: i64|
                    reporter@ == before.with_message(message@, created, now);
                assert(reporter@ == applied(before, view, created, now));
            }
        },
        SinkUpdate::ToolCall { id, name, input, output, status } => {
            let call = ToolCallRecord { id: Some(id), name, input, output, status, created_at: None };
            reporter.upsert_tool_call(call);
            proof {
                let (created, now) = choose|created: i64, now: i64|
                    reporter@ == before.with_tool_call(call@, created, now);
                assert(reporter@ == applied(before, view, created, now));
            }
        },
    }
}

/// Applies some updates to a reporter, in order.
#[verifier::spinoff_prover]
pub fn apply_updates(reporter: &mut SupervisorReporter, updates: Vec<SinkUpdate>)
    ensures
        exists|times: Seq<(i64, i64)>|
            times.len() == updates@.len() && final(reporter)@ == #[trigger] applied_all(
                old(reporter)@,
                update_views(updates@),
                times,
            ),
        old(reporter)@.well_formed() ==> final(reporter)@.well_formed(),
{
    let ghost before = reporter@;
    let ghost views = update_views(updates@);
    let ghost mut times: Seq<(i64, i64)> = Seq::empty();
    assert(views.take(0) =~= Seq::empty());
    for update in it: updates
        invariant
            it.seq() == updates@,
            views == update_views(updates@),
            times.len() == it.index(),
            reporter@ == applied_all(before, views.take(it.index() as int), times),
            before.well_formed() ==> reporter@.well_formed(),
    {
        let ghost state = reporter@;
        let ghost view = update@;
        apply_update(reporter, update);
        proof {
            let (created, now) = choose|created: i64, now: i64|
                reporter@ == applied(state, view, created, now);
            let prefix = views.take(it.index() + 1);
            let stamps = times.push((created, now));
            assert(prefix.drop_last() =~= views.take(it.index() as int));
            assert(prefix.last() == view);
            assert(stamps.drop_last() =~= times);
            times = stamps;
        }
    }
    assert(views.take(views.len() as int) =~= views);
}

/// Records an event with the reporter of the current process, if one is installed.
pub fn record_event(
    slot: &mut CurrentReporter,
    thread_id: ProcessId,
    mode: ModeKind,
    event: &EventMsg,
)
    ensures
        match old(slot)@ {
            Some(before) => exists|times: Seq<(i64, i64)>|
                times.len() == event_updates(ids::id_text(thread_id), mode, *event).len()
                    && final(slot)@ == Some(
                    #[trigger] applied_all(
                        before,
                        event_updates(ids::id_text(thread_id), mode, *event),
                        times,
                    ),
                ),
            None => final(slot)@ is None,
        },
        old(slot).well_formed() ==> final(slot).well_formed(),
{
    if let Some(reporter) = current_reporter_mut(slot) {
        let updates = record_event_with_sink(thread_id, mode, event);
        apply_updates(reporter, updates);
    }
}

/// The report that an update makes, at its times.
pub open spec fn report_of(update: SinkUpdateView, created: i64, now: i64) -> Report {
    match update {
        SinkUpdateView::ThreadId(thread_id) => Report::ThreadId { thread_id, now },
        SinkUpdateView::Activity { activity, mode, summary } => Report::Activity {
            activity,
            mode,
            summary,
            now,
        },
        SinkUpdateView::Error(error) => Report::Error { error, now },
        SinkUpdateView::Prompt(prompt) => Report::Prompt { prompt, now },
        SinkUpdateView::PlanText(plan_text) => Report::PlanText { plan_text, now },
        SinkUpdateView::PlanDelta(delta) => Report::PlanDelta { delta, now },
        SinkUpdateView::Plan(plan) => Report::Plan { plan, now },
        SinkUpdateView::Message { role, content } => Report::Message {
            message: WorkMessageView { role, content, created_at: None },
            created,
            now,
        },
        SinkUpdateView::ToolCall { id, name, input, output, status } => Report::ToolCall {
            call: ToolCallRecordView { id: Some(id), name, input, output, status, created_at: None },
            created,
            now,
        },
    }
}

/// The reports that some updates make, each at its times.
pub open spec fn reports_of(updates: Seq<SinkUpdateView>, times: Seq<(i64, i64)>) -> Seq<Report> {
    Seq::new(updates.len(), |i: int| report_of(updates[i], times[i].0, times[i].1))
}

/// An update of what the worker does is the report of it.
#[verifier::spinoff_prover]
proof fn lemma_activity_update_is_report(
    state: ReporterView,
    update: SinkUpdateView,
    created: i64,
    now: i64,
)
    requires
        update is ThreadId || update is Activity || update is Error,
    ensures
        applied(state, update, created, now) == state.after(report_of(update, created, now)),
{
    reveal(applied);
    match update {
        SinkUpdateView::ThreadId(_) => {},
        SinkUpdateView::Activity { .. } => {},
        _ => {},
    }
}

/// An update of the prompt or the plan is the report of it.
#[verifier::spinoff_prover]
proof fn lemma_plan_update_is_report(
    state: ReporterView,
    update: SinkUpdateView,
    created: i64,
    now: i64,
)
    requires
        update is Prompt || update is PlanText || update is PlanDelta || update is Plan,
    ensures
        applied(state, update, created, now) == state.after(report_of(update, created, now)),
{
    reveal(applied);
    match update {
        SinkUpdateView::Prompt(_) => {},
        SinkUpdateView::PlanText(_) => {},
        SinkUpdateView::PlanDelta(_) => {},
        _ => {},
    }
}

/// A message or a tool call is the report of it.
#[verifier::spinoff_prover]
proof fn lemma_entry_update_is_report(
    state: ReporterView,
    update: SinkUpdateView,
    created: i64,
    now: i64,
)
    requires
        update is Message || update is ToolCall,
    ensures
        applied(state, update, created, now) == state.after(report_of(update, created, now)),
{
    reveal(applied);
    match update {
        SinkUpdateView::Message { .. } => {},
        _ => {},
    }
}

/// To apply an update to a state is to report what it says.
#[verifier::spinoff_prover]
pub proof fn law_update_is_report(
    state: ReporterView,
    update: SinkUpdateView,
    created: i64,
    now: i64,
)
    ensures
        applied(state, update, created, now) == state.after(report_of(update, created, now)),
{
    match update {
        SinkUpdateView::Message { .. } | SinkUpdateView::ToolCall { .. } => {
            lemma_entry_update_is_report(state, update, created, now);
        },
        SinkUpdateView::ThreadId(_)
        | SinkUpdateView::Activity { .. }
        | SinkUpdateView::Error(_) => {
            lemma_activity_update_is_report(state, update, created, now);
        },
        _ => {
            lemma_plan_update_is_report(state, update, created, now);
        },
    }
}

/// To apply updates to a state is to report what they say, in order.
#[verifier::spinoff_prover]
pub proof fn law_updates_are_reports(
    state: ReporterView,
    updates: Seq<SinkUpdateView>,
    times: Seq<(i64, i64)>,
)
    requires
        times.len() == updates.len(),
    ensures
        applied_all(state, updates, times) == state.after_all(reports_of(updates, times)),
    decreases updates.len(),
{
    if updates.len() > 0 {
        let reports = reports_of(updates, times);
        let before = applied_all(state, updates.drop_last(), times.drop_last());
        law_updates_are_reports(state, updates.drop_last(), times.drop_last());
        assert(reports.drop_last() =~= reports_of(updates.drop_last(), times.drop_last()));
        law_update_is_report(before, updates.last(), times.last().0, times.last().1);
    }
}

/// The messages among some updates.
pub open spec fn recorded_messages(updates: Seq<SinkUpdateView>) -> Seq<(Seq<char>, Seq<char>)>
    decreases updates.len(),
{
    if updates.len() == 0 {
        Seq::empty()
    } else {
        match updates.last() {
            SinkUpdateView::Message { role, content } => recorded_messages(
                updates.drop_last(),
            ).push((role, content)),
            _ => recorded_messages(updates.drop_last()),
        }
    }
}

/// The updates of three events in a row.
pub open spec fn three_updates(
    thread: Seq<char>,
    mode: ModeKind,
    first: EventMsg,
    second: EventMsg,
    third: EventMsg,
) -> Seq<SinkUpdateView> {
    event_updates(thread, mode, first) + event_updates(thread, mode, second) + event_updates(
        thread,
        mode,
        third,
    )
}

/// Messages of a concatenation.
proof fn lemma_messages_concat(a: Seq<SinkUpdateView>, b: Seq<SinkUpdateView>)
    ensures
        recorded_messages(a + b) == recorded_messages(a) + recorded_messages(b),
    decreases b.len(),
{
    if b.len() == 0 {
        assert(a + b =~= a);
        assert(recorded_messages(a) + recorded_messages(b) =~= recorded_messages(a));
    } else {
        lemma_messages_concat(a, b.drop_last());
        assert((a + b).drop_last() =~= a + b.drop_last());
        assert(recorded_messages(a + b) =~= recorded_messages(a) + recorded_messages(b));
    }
}

/// A user item records one message over its whole life: once when it starts, not again when it
/// completes or when the older event repeats it.
#[verifier::spinoff_prover]
pub proof fn law_user_message_is_recorded_once(
    thread: Seq<char>,
    mode: ModeKind,
    message: UserMessageItem,
    repeated: String,
)
    ensures
        recorded_messages(
            three_updates(
                thread,
                mode,
                EventMsg::ItemStarted(TurnItem::UserMessage(message)),
                EventMsg::ItemCompleted(TurnItem::UserMessage(message)),
                EventMsg::UserMessage { message: repeated },
            ),
        ) == seq![("user"@, prompt_text(message))],
{
    let a = event_updates(thread, mode, EventMsg::ItemStarted(TurnItem::UserMessage(message)));
    let b = event_updates(thread, mode, EventMsg::ItemCompleted(TurnItem::UserMessage(message)));
    let c = event_updates(thread, mode, EventMsg::UserMessage { message: repeated });
    lemma_messages_concat(a, b);
    lemma_messages_concat(a + b, c);
    reveal_with_fuel(recorded_messages, 5);
    assert(recorded_messages(b) =~= Seq::empty());
    assert(recorded_messages(c) =~= Seq::empty());
    assert(recorded_messages(a) =~= seq![("user"@, prompt_text(message))]);
    assert(recorded_messages(a + b + c) =~= seq![("user"@, prompt_text(message))]);
}

/// An agent item records one message over its whole life: once when it completes.
#[verifier::spinoff_prover]
pub proof fn law_agent_message_is_recorded_once(
    thread: Seq<char>,
    mode: ModeKind,
    started: AgentMessageItem,
    completed: AgentMessageItem,
    repeated: String,
)
    ensures
        recorded_messages(
            three_updates(
                thread,
                mode,
                EventMsg::ItemStarted(TurnItem::AgentMessage(started)),
                EventMsg::ItemCompleted(TurnItem::AgentMessage(completed)),
                EventMsg::AgentMessage { message: repeated },
            ),
        ) == seq![("assistant"@, text::joined(text::texts(completed.content@), ""@))],
{
    let content = text::joined(text::texts(completed.content@), ""@);
    let a = event_updates(thread, mode, EventMsg::ItemStarted(TurnItem::AgentMessage(started)));
    let b = event_updates(thread, mode, EventMsg::ItemCompleted(TurnItem::AgentMessage(completed)));
    let c = event_updates(thread, mode, EventMsg::AgentMessage { message: repeated });
    lemma_messages_concat(a, b);
    lemma_messages_concat(a + b, c);
    reveal_with_fuel(recorded_messages, 4);
    assert(recorded_messages(a) =~= Seq::empty());
    assert(recorded_messages(c) =~= Seq::empty());
    assert(recorded_messages(b) =~= seq![("assistant"@, content)]);
    assert(recorded_messages(a + b + c) =~= seq![("assistant"@, content)]);
}

/// The text of a plan and the checklist are kept apart: neither changes the other.
#[verifier::spinoff_prover]
pub proof fn law_plan_text_and_checklist_are_separate(
    state: ReporterView,
    plan_text: Seq<char>,
    delta: Seq<char>,
    plan: Seq<PlanStepView>,
    now: i64,
)
    ensures
        applied(state, SinkUpdateView::PlanText(plan_text), now, now).details.plan
            == state.details.plan,
        applied(state, SinkUpdateView::PlanDelta(delta), now, now).details.plan
            == state.details.plan,
        applied(state, SinkUpdateView::Plan(plan), now, now).details.plan_text
            == state.details.plan_text,
{
    reveal(applied);
}

/// Every event names its thread first.
pub proof fn law_every_event_names_its_thread(thread: Seq<char>, mode: ModeKind, event: EventMsg)
    ensures
        event_updates(thread, mode, event).len() > 0,
        event_updates(thread, mode, event)[0] == SinkUpdateView::ThreadId(Some(thread)),
{
}

/// The identifier under which an event records a tool call.
pub open spec fn tool_call_id(event: EventMsg) -> Option<Seq<char>> {
    match event {
        EventMsg::ExecCommandBegin { call_id, .. } => Some(call_id@),
        EventMsg::ExecCommandEnd { call_id, .. } => Some(call_id@),
        EventMsg::McpToolCallBegin { call_id, .. } => Some(call_id@),
        EventMsg::McpToolCallEnd { call_id, .. } => Some(call_id@),
        EventMsg::PatchApplyBegin { call_id, .. } => Some(call_id@),
        EventMsg::PatchApplyEnd { call_id, .. } => Some(call_id@),
        EventMsg::DynamicToolCallRequest { call_id, .. } => Some(call_id@),
        EventMsg::DynamicToolCallResponse { call_id, .. } => Some(call_id@),
        _ => None,
    }
}

/// An event of a tool call says nothing but what the call is and what the worker does.
proof fn lemma_tool_effects(current: ProcessMode, event: EventMsg)
    requires
        tool_call_id(event) is Some,
    ensures
        tool_effects(current, event).len() == 2,
        tool_effects(current, event)[0] matches SinkUpdateView::ToolCall { id, .. } && Some(id)
            == tool_call_id(event),
{
    match event {
        EventMsg::ExecCommandBegin { .. } => {},
        EventMsg::ExecCommandEnd { .. } => {},
        EventMsg::McpToolCallBegin { .. } => {},
        EventMsg::McpToolCallEnd { .. } => {},
        EventMsg::PatchApplyBegin { .. } => {},
        EventMsg::PatchApplyEnd { .. } => {},
        EventMsg::DynamicToolCallRequest { .. } => {},
        EventMsg::DynamicToolCallResponse { .. } => {},
        _ => {},
    }
}

/// An event of a tool call says nothing else.
proof fn lemma_tool_event_is_no_activity(current: ProcessMode, event: EventMsg)
    requires
        tool_call_id(event) is Some,
    ensures
        activity_effects(current, event) == Seq::<SinkUpdateView>::empty(),
{
}

/// An event of a tool call records the call under the identifier that it carries, so that all
/// events of one call meet in one record.
pub proof fn law_tool_events_keep_the_call_id(thread: Seq<char>, mode: ModeKind, event: EventMsg)
    requires
        tool_call_id(event) is Some,
    ensures
        event_updates(thread, mode, event).len() == 3,
        event_updates(thread, mode, event)[1] matches SinkUpdateView::ToolCall { id, .. } && Some(id)
            == tool_call_id(event),
{
    let current = process_mode(mode);
    lemma_tool_effects(current, event);
    lemma_tool_event_is_no_activity(current, event);
    lemma_other_event(thread, mode, event);
}

/// An event that carries no item says what it says about activities and tool calls.
proof fn lemma_other_event(thread: Seq<char>, mode: ModeKind, event: EventMsg)
    requires
        !(event is ItemStarted),
        !(event is ItemCompleted),
    ensures
        event_updates(thread, mode, event) == seq![SinkUpdateView::ThreadId(Some(thread))] + (
        activity_effects(process_mode(mode), event) + tool_effects(process_mode(mode), event)),
{
}

/// What the reporter holds after an event, each of whose updates was made at its own times.
pub open spec fn after_event(
    state: ReporterView,
    thread: Seq<char>,
    mode: ModeKind,
    event: EventMsg,
    times: Seq<(i64, i64)>,
) -> ReporterView {
    applied_all(state, event_updates(thread, mode, event), times)
}

/// What is reported after one more update.
proof fn lemma_one_more_update(
    state: ReporterView,
    updates: Seq<SinkUpdateView>,
    update: SinkUpdateView,
    times: Seq<(i64, i64)>,
    at: (i64, i64),
)
    ensures
        applied_all(state, updates.push(update), times.push(at)) == applied(
            applied_all(state, updates, times),
            update,
            at.0,
            at.1,
        ),
{
    assert(updates.push(update).drop_last() =~= updates);
    assert(times.push(at).drop_last() =~= times);
}

/// What is reported after two updates.
proof fn lemma_two_updates(
    state: ReporterView,
    a: SinkUpdateView,
    b: SinkUpdateView,
    times: Seq<(i64, i64)>,
)
    requires
        times.len() == 2,
    ensures
        applied_all(state, seq![a, b], times) == applied(
            applied(state, a, times[0].0, times[0].1),
            b,
            times[1].0,
            times[1].1,
        ),
{
    let none = Seq::<SinkUpdateView>::empty();
    let before = Seq::<(i64, i64)>::empty();
    lemma_one_more_update(state, none, a, before, times[0]);
    lemma_one_more_update(state, none.push(a), b, before.push(times[0]), times[1]);
    assert(seq![a, b] =~= none.push(a).push(b));
    assert(times =~= before.push(times[0]).push(times[1]));
    assert(applied_all(state, none, before) == state);
}

/// What is reported after three updates.
proof fn lemma_three_updates(
    state: ReporterView,
    a: SinkUpdateView,
    b: SinkUpdateView,
    c: SinkUpdateView,
    times: Seq<(i64, i64)>,
)
    requires
        times.len() == 3,
    ensures
        applied_all(state, seq![a, b, c], times) == applied(
            applied(
                applied(state, a, times[0].0, times[0].1),
                b,
                times[1].0,
                times[1].1,
            ),
            c,
            times[2].0,
            times[2].1,
        ),
{
    let before = times.drop_last();
    lemma_two_updates(state, a, b, before);
    lemma_one_more_update(state, seq![a, b], c, before, times[2]);
    assert(seq![a, b, c] =~= seq![a, b].push(c));
    assert(times =~= before.push(times[2]));
}

/// What is reported after four updates.
proof fn lemma_four_updates(
    state: ReporterView,
    a: SinkUpdateView,
    b: SinkUpdateView,
    c: SinkUpdateView,
    d: SinkUpdateView,
    times: Seq<(i64, i64)>,
)
    requires
        times.len() == 4,
    ensures
        applied_all(state, seq![a, b, c, d], times) == applied(
            applied(
                applied(
                    applied(state, a, times[0].0, times[0].1),
                    b,
                    times[1].0,
                    times[1].1,
                ),
                c,
                times[2].0,
                times[2].1,
            ),
            d,
            times[3].0,
            times[3].1,
        ),
{
    let before = times.drop_last();
    lemma_three_updates(state, a, b, c, before);
    lemma_one_more_update(state, seq![a, b, c], d, before, times[3]);
    assert(seq![a, b, c, d] =~= seq![a, b, c].push(d));
    assert(times =~= before.push(times[3]));
}

/// The first update of an event is made, and then the second.
proof fn lemma_event_of_two(
    state: ReporterView,
    thread: Seq<char>,
    mode: ModeKind,
    event: EventMsg,
    times: Seq<(i64, i64)>,
)
    requires
        event_updates(thread, mode, event).len() == 2,
        times.len() == 2,
    ensures
        after_event(state, thread, mode, event, times) == applied(
            applied(
                state,
                event_updates(thread, mode, event)[0],
                times[0].0,
                times[0].1,
            ),
            event_updates(thread, mode, event)[1],
            times[1].0,
            times[1].1,
        ),
{
    let updates = event_updates(thread, mode, event);
    assert(updates =~= seq![updates[0], updates[1]]);
    lemma_two_updates(state, updates[0], updates[1], times);
}

/// The updates of an event are made one after the other.
proof fn lemma_event_of_three(
    state: ReporterView,
    thread: Seq<char>,
    mode: ModeKind,
    event: EventMsg,
    times: Seq<(i64, i64)>,
)
    requires
        event_updates(thread, mode, event).len() == 3,
        times.len() == 3,
    ensures
        after_event(state, thread, mode, event, times) == applied(
            applied(
                applied(
                    state,
                    event_updates(thread, mode, event)[0],
                    times[0].0,
                    times[0].1,
                ),
                event_updates(thread, mode, event)[1],
                times[1].0,
                times[1].1,
            ),
            event_updates(thread, mode, event)[2],
            times[2].0,
            times[2].1,
        ),
{
    let updates = event_updates(thread, mode, event);
    assert(updates =~= seq![updates[0], updates[1], updates[2]]);
    lemma_three_updates(state, updates[0], updates[1], updates[2], times);
}

/// When a turn starts, the worker thinks, in the mode of the turn. Its content stays.
#[verifier::spinoff_prover]
pub proof fn law_started_turn_is_thought_about(
    state: ReporterView,
    thread: Seq<char>,
    mode: ModeKind,
    kind: ModeKind,
    times: Seq<(i64, i64)>,
)
    requires
        times.len() == event_updates(thread, mode, (EventMsg::TurnStarted { collaboration_mode_kind: kind })).len(),
    ensures
        ({
            let after = after_event(state, thread, mode, (EventMsg::TurnStarted { collaboration_mode_kind: kind }), times);
            &&& after.status.activity == ActivityStatus::Thinking
            &&& kind == ModeKind::Plan ==> after.status.mode == ProcessMode::Plan
            &&& kind == ModeKind::Default ==> after.status.mode == ProcessMode::Default
            &&& after.status.thread_id == Some(reporter::bounded(thread))
            &&& after.status.summary == Some(reporter::bounded("turn started"@))
            &&& after.status.error is None
            &&& after.details == state.details
            &&& after.status.updated_at == times.last().1
        }),
{
    let event = (EventMsg::TurnStarted { collaboration_mode_kind: kind });
    lemma_other_event(thread, mode, event);
    assert(tool_effects(process_mode(mode), event) =~= Seq::empty());
    lemma_event_of_two(state, thread, mode, event, times);
    reveal(applied);
}

/// When a turn ends without an error, the worker is idle. Its content stays.
#[verifier::spinoff_prover]
pub proof fn law_completed_turn_leaves_the_worker_idle(
    state: ReporterView,
    thread: Seq<char>,
    mode: ModeKind,
    times: Seq<(i64, i64)>,
)
    requires
        times.len() == event_updates(thread, mode, (EventMsg::TurnComplete { error: None })).len(),
    ensures
        ({
            let after = after_event(state, thread, mode, (EventMsg::TurnComplete { error: None }), times);
            &&& after.status.activity == ActivityStatus::Idle
            &&& mode == ModeKind::Plan ==> after.status.mode == ProcessMode::Plan
            &&& mode == ModeKind::Default ==> after.status.mode == ProcessMode::Default
            &&& after.status.thread_id == Some(reporter::bounded(thread))
            &&& after.status.summary == Some(reporter::bounded("turn completed"@))
            &&& after.status.error is None
            &&& after.details == state.details
            &&& after.status.updated_at == times.last().1
        }),
{
    let event = (EventMsg::TurnComplete { error: None });
    lemma_other_event(thread, mode, event);
    assert(tool_effects(process_mode(mode), event) =~= Seq::empty());
    lemma_event_of_two(state, thread, mode, event, times);
    reveal(applied);
}

/// When a turn is aborted, the worker is idle and tells why. Its content stays.
#[verifier::spinoff_prover]
pub proof fn law_aborted_turn_leaves_the_worker_idle(
    state: ReporterView,
    thread: Seq<char>,
    mode: ModeKind,
    reason: String,
    times: Seq<(i64, i64)>,
)
    requires
        times.len() == event_updates(thread, mode, (EventMsg::TurnAborted { reason })).len(),
    ensures
        ({
            let after = after_event(state, thread, mode, (EventMsg::TurnAborted { reason }), times);
            &&& after.status.activity == ActivityStatus::Idle
            &&& mode == ModeKind::Plan ==> after.status.mode == ProcessMode::Plan
            &&& mode == ModeKind::Default ==> after.status.mode == ProcessMode::Default
            &&& after.status.thread_id == Some(reporter::bounded(thread))
            &&& after.status.summary == Some(reporter::bounded("turn aborted: "@ + reason@))
            &&& after.status.error is None
            &&& after.details == state.details
            &&& after.status.updated_at == times.last().1
        }),
{
    let event = (EventMsg::TurnAborted { reason });
    lemma_other_event(thread, mode, event);
    assert(tool_effects(process_mode(mode), event) =~= Seq::empty());
    lemma_event_of_two(state, thread, mode, event, times);
    reveal(applied);
}

/// After a shutdown the worker is idle. Its content stays.
#[verifier::spinoff_prover]
pub proof fn law_shutdown_leaves_the_worker_idle(
    state: ReporterView,
    thread: Seq<char>,
    mode: ModeKind,
    times: Seq<(i64, i64)>,
)
    requires
        times.len() == event_updates(thread, mode, EventMsg::ShutdownComplete).len(),
    ensures
        ({
            let after = after_event(state, thread, mode, EventMsg::ShutdownComplete, times);
            &&& after.status.activity == ActivityStatus::Idle
            &&& mode == ModeKind::Plan ==> after.status.mode == ProcessMode::Plan
            &&& mode == ModeKind::Default ==> after.status.mode == ProcessMode::Default
            &&& after.status.thread_id == Some(reporter::bounded(thread))
            &&& after.status.summary == Some(reporter::bounded("shutdown complete"@))
            &&& after.status.error is None
            &&& after.details == state.details
            &&& after.status.updated_at == times.last().1
        }),
{
    let event = EventMsg::ShutdownComplete;
    lemma_other_event(thread, mode, event);
    assert(tool_effects(process_mode(mode), event) =~= Seq::empty());
    lemma_event_of_two(state, thread, mode, event, times);
    reveal(applied);
}

/// A worker that leaves a review thinks on in the mode of its session. Its content stays.
#[verifier::spinoff_prover]
pub proof fn law_left_review_goes_on(
    state: ReporterView,
    thread: Seq<char>,
    mode: ModeKind,
    times: Seq<(i64, i64)>,
)
    requires
        times.len() == event_updates(thread, mode, EventMsg::ExitedReviewMode).len(),
    ensures
        ({
            let after = after_event(state, thread, mode, EventMsg::ExitedReviewMode, times);
            &&& after.status.activity == ActivityStatus::Thinking
            &&& mode == ModeKind::Plan ==> after.status.mode == ProcessMode::Plan
            &&& mode == ModeKind::Default ==> after.status.mode == ProcessMode::Default
            &&& after.status.thread_id == Some(reporter::bounded(thread))
            &&& after.status.summary == Some(reporter::bounded("left review mode"@))
            &&& after.status.error is None
            &&& after.details == state.details
            &&& after.status.updated_at == times.last().1
        }),
{
    let event = EventMsg::ExitedReviewMode;
    lemma_other_event(thread, mode, event);
    assert(tool_effects(process_mode(mode), event) =~= Seq::empty());
    lemma_event_of_two(state, thread, mode, event, times);
    reveal(applied);
}

/// A worker that asks for input waits for its user. Its content stays.
#[verifier::spinoff_prover]
pub proof fn law_question_waits_for_the_user(
    state: ReporterView,
    thread: Seq<char>,
    mode: ModeKind,
    times: Seq<(i64, i64)>,
)
    requires
        times.len() == event_updates(thread, mode, EventMsg::RequestUserInput).len(),
    ensures
        ({
            let after = after_event(state, thread, mode, EventMsg::RequestUserInput, times);
            &&& after.status.activity == ActivityStatus::WaitingForUserInput
            &&& mode == ModeKind::Plan ==> after.status.mode == ProcessMode::Plan
            &&& mode == ModeKind::Default ==> after.status.mode == ProcessMode::Default
            &&& after.status.thread_id == Some(reporter::bounded(thread))
            &&& after.status.summary == Some(reporter::bounded("waiting for user input"@))
            &&& after.status.error is None
            &&& after.details == state.details
            &&& after.status.updated_at == times.last().1
        }),
{
    let event = EventMsg::RequestUserInput;
    lemma_other_event(thread, mode, event);
    assert(tool_effects(process_mode(mode), event) =~= Seq::empty());
    lemma_event_of_two(state, thread, mode, event, times);
    reveal(applied);
}

/// A worker that asks for an approval of any kind waits for it. Its content stays.
#[verifier::spinoff_prover]
pub proof fn law_approvals_are_waited_for(
    state: ReporterView,
    thread: Seq<char>,
    mode: ModeKind,
    event: EventMsg,
    times: Seq<(i64, i64)>,
)
    requires
        event is ExecApprovalRequest || event is RequestPermissions
            || event is ApplyPatchApprovalRequest || event is ElicitationRequest
            || event is GuardianAssessment,
        times.len() == event_updates(thread, mode, event).len(),
    ensures
        ({
            let after = after_event(state, thread, mode, event, times);
            &&& after.status.activity == ActivityStatus::WaitingForApproval
            &&& mode == ModeKind::Plan ==> after.status.mode == ProcessMode::Plan
            &&& mode == ModeKind::Default ==> after.status.mode == ProcessMode::Default
            &&& after.status.thread_id == Some(reporter::bounded(thread))
            &&& after.status.summary == Some(reporter::bounded("waiting for approval"@))
            &&& after.status.error is None
            &&& after.details == state.details
            &&& after.status.updated_at == times.last().1
        }),
{
    lemma_other_event(thread, mode, event);
    assert(tool_effects(process_mode(mode), event) =~= Seq::empty());
    lemma_event_of_two(state, thread, mode, event, times);
    reveal(applied);
}

/// A worker whose model streams thinks. Its content stays.
#[verifier::spinoff_prover]
pub proof fn law_streaming_is_thinking(
    state: ReporterView,
    thread: Seq<char>,
    mode: ModeKind,
    event: EventMsg,
    times: Seq<(i64, i64)>,
)
    requires
        event is AgentMessageContentDelta || event is ReasoningContentDelta,
        times.len() == event_updates(thread, mode, event).len(),
    ensures
        ({
            let after = after_event(state, thread, mode, event, times);
            &&& after.status.activity == ActivityStatus::Thinking
            &&& mode == ModeKind::Plan ==> after.status.mode == ProcessMode::Plan
            &&& mode == ModeKind::Default ==> after.status.mode == ProcessMode::Default
            &&& after.status.thread_id == Some(reporter::bounded(thread))
            &&& after.status.summary == Some(reporter::bounded("streaming model output"@))
            &&& after.status.error is None
            &&& after.details == state.details
            &&& after.status.updated_at == times.last().1
        }),
{
    lemma_other_event(thread, mode, event);
    assert(tool_effects(process_mode(mode), event) =~= Seq::empty());
    lemma_event_of_two(state, thread, mode, event, times);
    reveal(applied);
}

/// A worker that reasons thinks, and what it reasons, without white space around it, is the summary.
/// Its content stays.
#[verifier::spinoff_prover]
pub proof fn law_reasoning_is_the_summary(
    state: ReporterView,
    thread: Seq<char>,
    mode: ModeKind,
    reasoning: String,
    times: Seq<(i64, i64)>,
)
    requires
        times.len() == event_updates(thread, mode, (EventMsg::AgentReasoning { text: reasoning })).len(),
    ensures
        ({
            let after = after_event(state, thread, mode, (EventMsg::AgentReasoning { text: reasoning }), times);
            &&& after.status.activity == ActivityStatus::Thinking
            &&& mode == ModeKind::Plan ==> after.status.mode == ProcessMode::Plan
            &&& mode == ModeKind::Default ==> after.status.mode == ProcessMode::Default
            &&& after.status.thread_id == Some(reporter::bounded(thread))
            &&& text::trimmed(reasoning@).len() > 0 ==> after.status.summary == Some(
                reporter::bounded(text::trimmed(reasoning@)),
            )
            &&& text::trimmed(reasoning@).len() == 0 ==> after.status.summary == Some(
                reporter::bounded("thinking"@),
            )
            &&& after.status.error is None
            &&& after.details == state.details
            &&& after.status.updated_at == times.last().1
        }),
{
    let event = (EventMsg::AgentReasoning { text: reasoning });
    lemma_other_event(thread, mode, event);
    assert(tool_effects(process_mode(mode), event) =~= Seq::empty());
    lemma_event_of_two(state, thread, mode, event, times);
    reveal(applied);
}

/// A worker that reasons thinks, and what it reasons, without white space around it, is the summary.
/// Its content stays.
#[verifier::spinoff_prover]
pub proof fn law_raw_reasoning_is_the_summary(
    state: ReporterView,
    thread: Seq<char>,
    mode: ModeKind,
    reasoning: String,
    times: Seq<(i64, i64)>,
)
    requires
        times.len() == event_updates(thread, mode, (EventMsg::AgentReasoningRawContent { text: reasoning })).len(),
    ensures
        ({
            let after = after_event(state, thread, mode, (EventMsg::AgentReasoningRawContent { text: reasoning }), times);
            &&& after.status.activity == ActivityStatus::Thinking
            &&& mode == ModeKind::Plan ==> after.status.mode == ProcessMode::Plan
            &&& mode == ModeKind::Default ==> after.status.mode == ProcessMode::Default
            &&& after.status.thread_id == Some(reporter::bounded(thread))
            &&& text::trimmed(reasoning@).len() > 0 ==> after.status.summary == Some(
                reporter::bounded(text::trimmed(reasoning@)),
            )
            &&& text::trimmed(reasoning@).len() == 0 ==> after.status.summary == Some(
                reporter::bounded("thinking"@),
            )
            &&& after.status.error is None
            &&& after.details == state.details
            &&& after.status.updated_at == times.last().1
        }),
{
    let event = (EventMsg::AgentReasoningRawContent { text: reasoning });
    lemma_other_event(thread, mode, event);
    assert(tool_effects(process_mode(mode), event) =~= Seq::empty());
    lemma_event_of_two(state, thread, mode, event, times);
    reveal(applied);
}

/// A worker that enters a review thinks in the review mode. The hint, where there is one, is the summary.
/// Its content stays.
#[verifier::spinoff_prover]
pub proof fn law_review_has_its_own_mode(
    state: ReporterView,
    thread: Seq<char>,
    mode: ModeKind,
    hint: Option<String>,
    times: Seq<(i64, i64)>,
)
    requires
        times.len() == event_updates(thread, mode, (EventMsg::EnteredReviewMode { user_facing_hint: hint })).len(),
    ensures
        ({
            let after = after_event(state, thread, mode, (EventMsg::EnteredReviewMode { user_facing_hint: hint }), times);
            &&& after.status.activity == ActivityStatus::Thinking
            &&& after.status.mode == ProcessMode::Review
            &&& after.status.thread_id == Some(reporter::bounded(thread))
            &&& hint matches Some(told) ==> after.status.summary == Some(reporter::bounded(told@))
            &&& hint is None ==> after.status.summary == Some(reporter::bounded("review mode"@))
            &&& after.status.error is None
            &&& after.details == state.details
            &&& after.status.updated_at == times.last().1
        }),
{
    let event = (EventMsg::EnteredReviewMode { user_facing_hint: hint });
    lemma_other_event(thread, mode, event);
    assert(tool_effects(process_mode(mode), event) =~= Seq::empty());
    lemma_event_of_two(state, thread, mode, event, times);
    reveal(applied);
}

/// A turn that ends with an error is the error of the worker and its summary. The mode and the content stay.
#[verifier::spinoff_prover]
pub proof fn law_failed_turn_is_an_error(
    state: ReporterView,
    thread: Seq<char>,
    mode: ModeKind,
    message: String,
    times: Seq<(i64, i64)>,
)
    requires
        times.len() == event_updates(thread, mode, (EventMsg::TurnComplete { error: Some(message) })).len(),
    ensures
        ({
            let after = after_event(state, thread, mode, (EventMsg::TurnComplete { error: Some(message) }), times);
            &&& after.status.activity == ActivityStatus::Error
            &&& after.status.error == Some(reporter::bounded(message@))
            &&& after.status.mode == state.status.mode
            &&& after.status.thread_id == Some(reporter::bounded(thread))
            &&& after.status.summary == Some(reporter::bounded(message@))
            &&& after.details == state.details
            &&& after.status.updated_at == times.last().1
        }),
{
    let event = (EventMsg::TurnComplete { error: Some(message) });
    lemma_other_event(thread, mode, event);
    assert(tool_effects(process_mode(mode), event) =~= Seq::empty());
    lemma_event_of_two(state, thread, mode, event, times);
    reveal(applied);
}

/// An error of the session is the error of the worker and its summary. The mode and the content stay.
#[verifier::spinoff_prover]
pub proof fn law_error_event_is_an_error(
    state: ReporterView,
    thread: Seq<char>,
    mode: ModeKind,
    message: String,
    times: Seq<(i64, i64)>,
)
    requires
        times.len() == event_updates(thread, mode, (EventMsg::Error { message })).len(),
    ensures
        ({
            let after = after_event(state, thread, mode, (EventMsg::Error { message }), times);
            &&& after.status.activity == ActivityStatus::Error
            &&& after.status.error == Some(reporter::bounded(message@))
            &&& after.status.mode == state.status.mode
            &&& after.status.thread_id == Some(reporter::bounded(thread))
            &&& after.status.summary == Some(reporter::bounded(message@))
            &&& after.details == state.details
            &&& after.status.updated_at == times.last().1
        }),
{
    let event = (EventMsg::Error { message });
    lemma_other_event(thread, mode, event);
    assert(tool_effects(process_mode(mode), event) =~= Seq::empty());
    lemma_event_of_two(state, thread, mode, event, times);
    reveal(applied);
}

/// An error of the stream is the error of the worker and its summary. The mode and the content stay.
#[verifier::spinoff_prover]
pub proof fn law_stream_error_is_an_error(
    state: ReporterView,
    thread: Seq<char>,
    mode: ModeKind,
    message: String,
    times: Seq<(i64, i64)>,
)
    requires
        times.len() == event_updates(thread, mode, (EventMsg::StreamError { message })).len(),
    ensures
        ({
            let after = after_event(state, thread, mode, (EventMsg::StreamError { message }), times);
            &&& after.status.activity == ActivityStatus::Error
            &&& after.status.error == Some(reporter::bounded(message@))
            &&& after.status.mode == state.status.mode
            &&& after.status.thread_id == Some(reporter::bounded(thread))
            &&& after.status.summary == Some(reporter::bounded(message@))
            &&& after.details == state.details
            &&& after.status.updated_at == times.last().1
        }),
{
    let event = (EventMsg::StreamError { message });
    lemma_other_event(thread, mode, event);
    assert(tool_effects(process_mode(mode), event) =~= Seq::empty());
    lemma_event_of_two(state, thread, mode, event, times);
    reveal(applied);
}

/// A piece of a plan is added to the text of the plan. The worker thinks in the plan mode; all other
/// content stays.
#[verifier::spinoff_prover]
pub proof fn law_plan_delta_extends_the_plan_text(
    state: ReporterView,
    thread: Seq<char>,
    mode: ModeKind,
    delta: String,
    times: Seq<(i64, i64)>,
)
    requires
        delta@.len() > 0,
        times.len() == event_updates(thread, mode, (EventMsg::PlanDelta { delta })).len(),
    ensures
        ({
            let after = after_event(state, thread, mode, (EventMsg::PlanDelta { delta }), times);
            &&& after.status.activity == ActivityStatus::Thinking
            &&& after.status.mode == ProcessMode::Plan
            &&& after.status.thread_id == Some(reporter::bounded(thread))
            &&& after.status.summary == Some(reporter::bounded("streaming plan"@))
            &&& after.status.error is None
            &&& state.details.plan_text matches Some(before) ==> after.details.plan_text == Some(
                reporter::bounded(before + delta@),
            )
            &&& state.details.plan_text is None ==> after.details.plan_text == Some(
                reporter::bounded(delta@),
            )
            &&& after.details.plan == state.details.plan
            &&& after.details.prompt == state.details.prompt
            &&& after.details.messages == state.details.messages
            &&& after.details.tool_calls == state.details.tool_calls
        }),
{
    let event = (EventMsg::PlanDelta { delta });
    lemma_other_event(thread, mode, event);
    assert(tool_effects(process_mode(mode), event) =~= Seq::empty());
    lemma_event_of_three(state, thread, mode, event, times);
    reveal(applied);
    assert(Seq::<char>::empty() + delta@ =~= delta@);
}

/// An update of the plan replaces the checklist by its steps, in order, each with its progress. The
/// worker thinks, and the explanation, where there is one, is the summary. All other content stays.
#[verifier::spinoff_prover]
pub proof fn law_plan_update_replaces_the_checklist(
    state: ReporterView,
    thread: Seq<char>,
    mode: ModeKind,
    explanation: Option<String>,
    plan: Vec<PlanItemArg>,
    times: Seq<(i64, i64)>,
)
    requires
        plan@.len() <= reporter::MAX_WORK_ITEMS,
        times.len() == event_updates(thread, mode, (EventMsg::PlanUpdate { explanation, plan })).len(),
    ensures
        ({
            let after = after_event(state, thread, mode, (EventMsg::PlanUpdate { explanation, plan }), times);
            &&& after.status.activity == ActivityStatus::Thinking
            &&& mode == ModeKind::Plan ==> after.status.mode == ProcessMode::Plan
            &&& mode == ModeKind::Default ==> after.status.mode == ProcessMode::Default
            &&& after.status.thread_id == Some(reporter::bounded(thread))
            &&& explanation matches Some(told) ==> after.status.summary == Some(
                reporter::bounded(told@),
            )
            &&& explanation is None ==> after.status.summary == Some(
                reporter::bounded("plan updated"@),
            )
            &&& after.status.error is None
            &&& after.details.plan.len() == plan@.len()
            &&& forall|i: int|
                0 <= i < plan@.len() ==> {
                    let step = #[trigger] after.details.plan[i];
                    &&& step.step == reporter::bounded(plan@[i].step@)
                    &&& plan@[i].status == StepStatus::Pending ==> step.status
                        == reporter::bounded("pending"@)
                    &&& plan@[i].status == StepStatus::InProgress ==> step.status
                        == reporter::bounded("inProgress"@)
                    &&& plan@[i].status == StepStatus::Completed ==> step.status
                        == reporter::bounded("completed"@)
                }
            &&& after.details.plan_text == state.details.plan_text
            &&& after.details.prompt == state.details.prompt
            &&& after.details.messages == state.details.messages
            &&& after.details.tool_calls == state.details.tool_calls
        }),
{
    let event = (EventMsg::PlanUpdate { explanation, plan });
    lemma_other_event(thread, mode, event);
    assert(tool_effects(process_mode(mode), event) =~= Seq::empty());
    lemma_event_of_three(state, thread, mode, event, times);
    reveal(applied);
}

/// What a user says is the prompt of the worker and a message of the user. The worker thinks; the plan
/// and the tool calls stay.
#[verifier::spinoff_prover]
pub proof fn law_user_item_is_the_prompt(
    state: ReporterView,
    thread: Seq<char>,
    mode: ModeKind,
    message: UserMessageItem,
    times: Seq<(i64, i64)>,
)
    requires
        times.len() == event_updates(thread, mode, EventMsg::ItemStarted(TurnItem::UserMessage(message))).len(),
    ensures
        ({
            let after = after_event(state, thread, mode, EventMsg::ItemStarted(TurnItem::UserMessage(message)), times);
            &&& after.status.activity == ActivityStatus::Thinking
            &&& mode == ModeKind::Plan ==> after.status.mode == ProcessMode::Plan
            &&& mode == ModeKind::Default ==> after.status.mode == ProcessMode::Default
            &&& after.status.thread_id == Some(reporter::bounded(thread))
            &&& after.status.summary == Some(reporter::bounded("processing user input"@))
            &&& after.status.error is None
            &&& message.preview matches Some(said) ==> {
                &&& after.details.prompt == Some(reporter::bounded(said@))
                &&& after.details.messages.last().content == reporter::bounded(said@)
            }
            &&& message.preview is None ==> {
                &&& after.details.prompt == Some(reporter::bounded(Seq::<char>::empty()))
                &&& after.details.messages.last().content == reporter::bounded(Seq::<char>::empty())
            }
            &&& after.details.messages.last().role == reporter::bounded("user"@)
            &&& after.details.messages.last().created_at is Some
            &&& after.details.messages == reporter::pushed_bounded(
                state.details.messages,
                after.details.messages.last(),
            )
            &&& after.details.plan == state.details.plan
            &&& after.details.plan_text == state.details.plan_text
            &&& after.details.tool_calls == state.details.tool_calls
        }),
{
    let event = EventMsg::ItemStarted(TurnItem::UserMessage(message));
    let updates = event_updates(thread, mode, event);
    assert(updates =~= seq![updates[0], updates[1], updates[2], updates[3]]);
    lemma_four_updates(state, updates[0], updates[1], updates[2], updates[3], times);
    reveal(applied);
}

/// When what a user said is complete, it is the prompt of the worker. No message is added, and what the
/// worker does stays.
#[verifier::spinoff_prover]
pub proof fn law_completed_user_item_is_the_prompt(
    state: ReporterView,
    thread: Seq<char>,
    mode: ModeKind,
    message: UserMessageItem,
    times: Seq<(i64, i64)>,
)
    requires
        times.len() == event_updates(thread, mode, EventMsg::ItemCompleted(TurnItem::UserMessage(message))).len(),
    ensures
        ({
            let after = after_event(state, thread, mode, EventMsg::ItemCompleted(TurnItem::UserMessage(message)), times);
            &&& after.status.activity == state.status.activity
            &&& after.status.mode == state.status.mode
            &&& after.status.summary == state.status.summary
            &&& after.status.error == state.status.error
            &&& after.status.thread_id == Some(reporter::bounded(thread))
            &&& message.preview matches Some(said) ==> after.details.prompt == Some(
                reporter::bounded(said@),
            )
            &&& after.details.messages == state.details.messages
            &&& after.details.plan == state.details.plan
            &&& after.details.plan_text == state.details.plan_text
            &&& after.details.tool_calls == state.details.tool_calls
        }),
{
    let event = EventMsg::ItemCompleted(TurnItem::UserMessage(message));
    lemma_event_of_two(state, thread, mode, event, times);
    reveal(applied);
}

/// What an agent said, all its pieces one after the other, is a message of the assistant. The worker
/// thinks; all other content stays.
#[verifier::spinoff_prover]
pub proof fn law_agent_item_is_a_message(
    state: ReporterView,
    thread: Seq<char>,
    mode: ModeKind,
    message: AgentMessageItem,
    times: Seq<(i64, i64)>,
)
    requires
        times.len() == event_updates(thread, mode, EventMsg::ItemCompleted(TurnItem::AgentMessage(message))).len(),
    ensures
        ({
            let after = after_event(state, thread, mode, EventMsg::ItemCompleted(TurnItem::AgentMessage(message)), times);
            &&& after.status.activity == ActivityStatus::Thinking
            &&& mode == ModeKind::Plan ==> after.status.mode == ProcessMode::Plan
            &&& mode == ModeKind::Default ==> after.status.mode == ProcessMode::Default
            &&& after.status.thread_id == Some(reporter::bounded(thread))
            &&& after.status.summary == Some(reporter::bounded("generating response"@))
            &&& after.status.error is None
            &&& after.details.messages.last().role == reporter::bounded("assistant"@)
            &&& after.details.messages.last().content == reporter::bounded(
                text::joined(text::texts(message.content@), ""@),
            )
            &&& after.details.messages.last().created_at is Some
            &&& after.details.messages == reporter::pushed_bounded(
                state.details.messages,
                after.details.messages.last(),
            )
            &&& after.details.prompt == state.details.prompt
            &&& after.details.plan == state.details.plan
            &&& after.details.plan_text == state.details.plan_text
            &&& after.details.tool_calls == state.details.tool_calls
        }),
{
    let event = EventMsg::ItemCompleted(TurnItem::AgentMessage(message));
    lemma_event_of_three(state, thread, mode, event, times);
    reveal(applied);
}

/// A worker whose agent begins to speak thinks. Its content stays.
#[verifier::spinoff_prover]
pub proof fn law_started_agent_item_is_thinking(
    state: ReporterView,
    thread: Seq<char>,
    mode: ModeKind,
    message: AgentMessageItem,
    times: Seq<(i64, i64)>,
)
    requires
        times.len() == event_updates(thread, mode, EventMsg::ItemStarted(TurnItem::AgentMessage(message))).len(),
    ensures
        ({
            let after = after_event(state, thread, mode, EventMsg::ItemStarted(TurnItem::AgentMessage(message)), times);
            &&& after.status.activity == ActivityStatus::Thinking
            &&& mode == ModeKind::Plan ==> after.status.mode == ProcessMode::Plan
            &&& mode == ModeKind::Default ==> after.status.mode == ProcessMode::Default
            &&& after.status.thread_id == Some(reporter::bounded(thread))
            &&& after.status.summary == Some(reporter::bounded("generating response"@))
            &&& after.status.error is None
            &&& after.details == state.details
        }),
{
    let event = EventMsg::ItemStarted(TurnItem::AgentMessage(message));
    lemma_event_of_two(state, thread, mode, event, times);
    reveal(applied);
}

/// A plan that begins has an empty text. The worker thinks in the plan mode; all other content stays.
#[verifier::spinoff_prover]
pub proof fn law_started_plan_is_empty(
    state: ReporterView,
    thread: Seq<char>,
    mode: ModeKind,
    plan: PlanItem,
    times: Seq<(i64, i64)>,
)
    requires
        times.len() == event_updates(thread, mode, EventMsg::ItemStarted(TurnItem::Plan(plan))).len(),
    ensures
        ({
            let after = after_event(state, thread, mode, EventMsg::ItemStarted(TurnItem::Plan(plan)), times);
            &&& after.status.activity == ActivityStatus::Thinking
            &&& after.status.mode == ProcessMode::Plan
            &&& after.status.thread_id == Some(reporter::bounded(thread))
            &&& after.status.summary == Some(reporter::bounded("generating plan"@))
            &&& after.status.error is None
            &&& after.details.plan_text == Some(reporter::bounded(Seq::<char>::empty()))
            &&& after.details.plan == state.details.plan
            &&& after.details.prompt == state.details.prompt
            &&& after.details.messages == state.details.messages
            &&& after.details.tool_calls == state.details.tool_calls
        }),
{
    let event = EventMsg::ItemStarted(TurnItem::Plan(plan));
    lemma_event_of_three(state, thread, mode, event, times);
    reveal(applied);
}

/// A plan that is complete is the text of the plan. What the worker does and all other content stay.
#[verifier::spinoff_prover]
pub proof fn law_completed_plan_is_the_plan_text(
    state: ReporterView,
    thread: Seq<char>,
    mode: ModeKind,
    plan: PlanItem,
    times: Seq<(i64, i64)>,
)
    requires
        times.len() == event_updates(thread, mode, EventMsg::ItemCompleted(TurnItem::Plan(plan))).len(),
    ensures
        ({
            let after = after_event(state, thread, mode, EventMsg::ItemCompleted(TurnItem::Plan(plan)), times);
            &&& after.status.activity == state.status.activity
            &&& after.status.mode == state.status.mode
            &&& after.status.summary == state.status.summary
            &&& after.status.thread_id == Some(reporter::bounded(thread))
            &&& after.details.plan_text == Some(reporter::bounded(plan.text@))
            &&& after.details.plan == state.details.plan
            &&& after.details.prompt == state.details.prompt
            &&& after.details.messages == state.details.messages
            &&& after.details.tool_calls == state.details.tool_calls
        }),
{
    let event = EventMsg::ItemCompleted(TurnItem::Plan(plan));
    lemma_event_of_two(state, thread, mode, event, times);
    reveal(applied);
}

/// An event that repeats what an item says, or that says nothing of the worker, names its thread and
/// changes nothing else.
#[verifier::spinoff_prover]
pub proof fn law_repeating_events_change_nothing_else(
    state: ReporterView,
    thread: Seq<char>,
    mode: ModeKind,
    event: EventMsg,
    times: Seq<(i64, i64)>,
)
    requires
        event is UserMessage || event is AgentMessage || event is Other,
        times.len() == event_updates(thread, mode, event).len(),
    ensures
        ({
            let after = after_event(state, thread, mode, event, times);
            &&& after.status.thread_id == Some(reporter::bounded(thread))
            &&& after.status.activity == state.status.activity
            &&& after.status.mode == state.status.mode
            &&& after.status.summary == state.status.summary
            &&& after.status.error == state.status.error
            &&& after.details == state.details
        }),
{
    lemma_other_event(thread, mode, event);
    let updates = event_updates(thread, mode, event);
    assert(tool_effects(process_mode(mode), event) =~= Seq::empty());
    assert(activity_effects(process_mode(mode), event) =~= Seq::empty());
    assert(updates =~= seq![updates[0]]);
    assert(updates.drop_last() =~= Seq::empty());
    reveal(applied);
    reveal_with_fuel(applied_all, 2);
}

/// A command that begins is a running tool call under its identifier, with the command and its directory
/// as the input. The worker runs a tool, and the command is the summary. All other content stays.
#[verifier::spinoff_prover]
pub proof fn law_begun_command_is_a_running_call(
    state: ReporterView,
    thread: Seq<char>,
    mode: ModeKind,
    call_id: String,
    command: Vec<String>,
    cwd: String,
    times: Seq<(i64, i64)>,
)
    requires
        reporter::call_index(state.details.tool_calls, call_id@, 0) is None,
        times.len() == event_updates(thread, mode, (EventMsg::ExecCommandBegin { call_id, command, cwd })).len(),
    ensures
        ({
            let after = after_event(state, thread, mode, (EventMsg::ExecCommandBegin { call_id, command, cwd }), times);
            &&& after.status.activity == ActivityStatus::ExecutingTool
            &&& mode == ModeKind::Plan ==> after.status.mode == ProcessMode::Plan
            &&& mode == ModeKind::Default ==> after.status.mode == ProcessMode::Default
            &&& after.status.thread_id == Some(reporter::bounded(thread))
            &&& after.status.summary == Some(reporter::bounded(text::joined(text::texts(command@), " "@)))
            &&& after.status.error is None
            &&& after.details.tool_calls == reporter::pushed_bounded(
                state.details.tool_calls,
                after.details.tool_calls.last(),
            )
            &&& after.details.tool_calls.last().id == Some(call_id@)
            &&& after.details.tool_calls.last().name == reporter::bounded("exec"@)
            &&& after.details.tool_calls.last().input == reporter::bounded(
                json::json_object_text(
                    seq![
                        ("callId"@, json::json_quoted(call_id@)),
                        ("command"@, json_texts(text::texts(command@))),
                        ("cwd"@, json::json_quoted(cwd@)),
                    ],
                ),
            )
            &&& after.details.tool_calls.last().output is None
            &&& after.details.tool_calls.last().status == reporter::bounded("running"@)
            &&& after.details.tool_calls.last().created_at is Some
            &&& after.details.prompt == state.details.prompt
            &&& after.details.plan == state.details.plan
            &&& after.details.plan_text == state.details.plan_text
            &&& after.details.messages == state.details.messages
        }),
{
    let event = (EventMsg::ExecCommandBegin { call_id, command, cwd });
    reveal(exec_begin_input);
    lemma_other_event(thread, mode, event);
    lemma_tool_event_is_no_activity(process_mode(mode), event);
    lemma_event_of_three(state, thread, mode, event, times);
    reveal(applied);
}

/// A command that ended is a tool call with what it put out and how it ended. The worker thinks. All
/// other content stays.
#[verifier::spinoff_prover]
pub proof fn law_ended_command_has_its_output(
    state: ReporterView,
    thread: Seq<char>,
    mode: ModeKind,
    call_id: String,
    command: Vec<String>,
    formatted_output: String,
    status: RunStatus,
    times: Seq<(i64, i64)>,
)
    requires
        reporter::call_index(state.details.tool_calls, call_id@, 0) is None,
        times.len() == event_updates(thread, mode, (EventMsg::ExecCommandEnd { call_id, command, formatted_output, status })).len(),
    ensures
        ({
            let after = after_event(state, thread, mode, (EventMsg::ExecCommandEnd { call_id, command, formatted_output, status }), times);
            &&& after.status.activity == ActivityStatus::Thinking
            &&& mode == ModeKind::Plan ==> after.status.mode == ProcessMode::Plan
            &&& mode == ModeKind::Default ==> after.status.mode == ProcessMode::Default
            &&& after.status.thread_id == Some(reporter::bounded(thread))
            &&& after.status.summary == Some(reporter::bounded("tool completed"@))
            &&& after.status.error is None
            &&& after.details.tool_calls == reporter::pushed_bounded(
                state.details.tool_calls,
                after.details.tool_calls.last(),
            )
            &&& after.details.tool_calls.last().id == Some(call_id@)
            &&& after.details.tool_calls.last().name == reporter::bounded("exec"@)
            &&& after.details.tool_calls.last().input == reporter::bounded(
                json::json_object_text(
                    seq![
                        ("callId"@, json::json_quoted(call_id@)),
                        ("command"@, json_texts(text::texts(command@))),
                    ],
                ),
            )
            &&& after.details.tool_calls.last().output == Some(
                reporter::bounded(formatted_output@),
            )
            &&& status == RunStatus::Completed ==> after.details.tool_calls.last().status == reporter::bounded(
                "completed"@,
            )
            &&& status == RunStatus::Failed ==> after.details.tool_calls.last().status == reporter::bounded(
                "failed"@,
            )
            &&& status == RunStatus::Declined ==> after.details.tool_calls.last().status == reporter::bounded(
                "declined"@,
            )
            &&& after.details.tool_calls.last().created_at is Some
            &&& after.details.prompt == state.details.prompt
            &&& after.details.plan == state.details.plan
            &&& after.details.plan_text == state.details.plan_text
            &&& after.details.messages == state.details.messages
        }),
{
    let event = (EventMsg::ExecCommandEnd { call_id, command, formatted_output, status });
    reveal(exec_end_input);
    lemma_other_event(thread, mode, event);
    lemma_tool_event_is_no_activity(process_mode(mode), event);
    lemma_event_of_three(state, thread, mode, event, times);
    reveal(applied);
}

/// A call of an MCP tool that begins is a running tool call, named by its server and its tool, with its
/// arguments as the input. The worker runs a tool. All other content stays.
#[verifier::spinoff_prover]
pub proof fn law_begun_mcp_call_is_a_running_call(
    state: ReporterView,
    thread: Seq<char>,
    mode: ModeKind,
    call_id: String,
    server: String,
    tool: String,
    arguments: Option<serde_json::Value>,
    times: Seq<(i64, i64)>,
)
    requires
        reporter::call_index(state.details.tool_calls, call_id@, 0) is None,
        times.len() == event_updates(thread, mode, (EventMsg::McpToolCallBegin { call_id, server, tool, arguments })).len(),
    ensures
        ({
            let after = after_event(state, thread, mode, (EventMsg::McpToolCallBegin { call_id, server, tool, arguments }), times);
            &&& after.status.activity == ActivityStatus::ExecutingTool
            &&& mode == ModeKind::Plan ==> after.status.mode == ProcessMode::Plan
            &&& mode == ModeKind::Default ==> after.status.mode == ProcessMode::Default
            &&& after.status.thread_id == Some(reporter::bounded(thread))
            &&& after.status.summary == Some(reporter::bounded("MCP tool "@ + server@ + ":"@ + tool@))
            &&& after.status.error is None
            &&& after.details.tool_calls == reporter::pushed_bounded(
                state.details.tool_calls,
                after.details.tool_calls.last(),
            )
            &&& after.details.tool_calls.last().id == Some(call_id@)
            &&& after.details.tool_calls.last().name == reporter::bounded("mcp:"@ + server@ + ":"@ + tool@)
            &&& after.details.tool_calls.last().input == reporter::bounded(
                json::json_object_text(
                    seq![
                        ("arguments"@, json_or_null(arguments)),
                        ("callId"@, json::json_quoted(call_id@)),
                    ],
                ),
            )
            &&& after.details.tool_calls.last().output is None
            &&& after.details.tool_calls.last().status == reporter::bounded("running"@)
            &&& after.details.tool_calls.last().created_at is Some
            &&& after.details.prompt == state.details.prompt
            &&& after.details.plan == state.details.plan
            &&& after.details.plan_text == state.details.plan_text
            &&& after.details.messages == state.details.messages
        }),
{
    let event = (EventMsg::McpToolCallBegin { call_id, server, tool, arguments });
    reveal(mcp_input);
    lemma_other_event(thread, mode, event);
    lemma_tool_event_is_no_activity(process_mode(mode), event);
    lemma_event_of_three(state, thread, mode, event, times);
    reveal(applied);
}

/// A call of an MCP tool that ended is a tool call with its result, or with its error where it failed. The
/// worker thinks. All other content stays.
#[verifier::spinoff_prover]
pub proof fn law_ended_mcp_call_has_its_result(
    state: ReporterView,
    thread: Seq<char>,
    mode: ModeKind,
    call_id: String,
    server: String,
    tool: String,
    arguments: Option<serde_json::Value>,
    result: Result<Option<String>, String>,
    times: Seq<(i64, i64)>,
)
    requires
        reporter::call_index(state.details.tool_calls, call_id@, 0) is None,
        times.len() == event_updates(thread, mode, (EventMsg::McpToolCallEnd { call_id, server, tool, arguments, result })).len(),
    ensures
        ({
            let after = after_event(state, thread, mode, (EventMsg::McpToolCallEnd { call_id, server, tool, arguments, result }), times);
            &&& after.status.activity == ActivityStatus::Thinking
            &&& mode == ModeKind::Plan ==> after.status.mode == ProcessMode::Plan
            &&& mode == ModeKind::Default ==> after.status.mode == ProcessMode::Default
            &&& after.status.thread_id == Some(reporter::bounded(thread))
            &&& after.status.summary == Some(reporter::bounded("MCP tool completed"@))
            &&& after.status.error is None
            &&& after.details.tool_calls == reporter::pushed_bounded(
                state.details.tool_calls,
                after.details.tool_calls.last(),
            )
            &&& after.details.tool_calls.last().id == Some(call_id@)
            &&& after.details.tool_calls.last().name == reporter::bounded("mcp:"@ + server@ + ":"@ + tool@)
            &&& after.details.tool_calls.last().input == reporter::bounded(
                json::json_object_text(
                    seq![
                        ("arguments"@, json_or_null(arguments)),
                        ("callId"@, json::json_quoted(call_id@)),
                    ],
                ),
            )
            &&& result matches Ok(Some(output)) ==> after.details.tool_calls.last().output == Some(
                reporter::bounded(output@),
            )
            &&& result matches Ok(None) ==> after.details.tool_calls.last().output is None
            &&& result matches Err(error) ==> after.details.tool_calls.last().output == Some(
                reporter::bounded(error@),
            )
            &&& result is Ok ==> after.details.tool_calls.last().status == reporter::bounded(
                "completed"@,
            )
            &&& result is Err ==> after.details.tool_calls.last().status == reporter::bounded(
                "failed"@,
            )
            &&& after.details.tool_calls.last().created_at is Some
            &&& after.details.prompt == state.details.prompt
            &&& after.details.plan == state.details.plan
            &&& after.details.plan_text == state.details.plan_text
            &&& after.details.messages == state.details.messages
        }),
{
    let event = (EventMsg::McpToolCallEnd { call_id, server, tool, arguments, result });
    reveal(mcp_input);
    lemma_other_event(thread, mode, event);
    lemma_tool_event_is_no_activity(process_mode(mode), event);
    lemma_event_of_three(state, thread, mode, event, times);
    reveal(applied);
}

/// A patch that begins is a running tool call with the changes as the input. The worker runs a tool. All
/// other content stays.
#[verifier::spinoff_prover]
pub proof fn law_begun_patch_is_a_running_call(
    state: ReporterView,
    thread: Seq<char>,
    mode: ModeKind,
    call_id: String,
    changes: serde_json::Value,
    times: Seq<(i64, i64)>,
)
    requires
        reporter::call_index(state.details.tool_calls, call_id@, 0) is None,
        times.len() == event_updates(thread, mode, (EventMsg::PatchApplyBegin { call_id, changes })).len(),
    ensures
        ({
            let after = after_event(state, thread, mode, (EventMsg::PatchApplyBegin { call_id, changes }), times);
            &&& after.status.activity == ActivityStatus::ExecutingTool
            &&& mode == ModeKind::Plan ==> after.status.mode == ProcessMode::Plan
            &&& mode == ModeKind::Default ==> after.status.mode == ProcessMode::Default
            &&& after.status.thread_id == Some(reporter::bounded(thread))
            &&& after.status.summary == Some(reporter::bounded("applying patch"@))
            &&& after.status.error is None
            &&& after.details.tool_calls == reporter::pushed_bounded(
                state.details.tool_calls,
                after.details.tool_calls.last(),
            )
            &&& after.details.tool_calls.last().id == Some(call_id@)
            &&& after.details.tool_calls.last().name == reporter::bounded("apply_patch"@)
            &&& after.details.tool_calls.last().input == reporter::bounded(
                json::json_object_text(
                    seq![
                        ("callId"@, json::json_quoted(call_id@)),
                        ("changes"@, json::json_text(changes)),
                    ],
                ),
            )
            &&& after.details.tool_calls.last().output is None
            &&& after.details.tool_calls.last().status == reporter::bounded("running"@)
            &&& after.details.tool_calls.last().created_at is Some
            &&& after.details.prompt == state.details.prompt
            &&& after.details.plan == state.details.plan
            &&& after.details.plan_text == state.details.plan_text
            &&& after.details.messages == state.details.messages
        }),
{
    let event = (EventMsg::PatchApplyBegin { call_id, changes });
    reveal(patch_input);
    lemma_other_event(thread, mode, event);
    lemma_tool_event_is_no_activity(process_mode(mode), event);
    lemma_event_of_three(state, thread, mode, event, times);
    reveal(applied);
}

/// A patch that ended is a tool call with what it complained of, or else with what it put out, and how it
/// ended. The worker thinks. All other content stays.
#[verifier::spinoff_prover]
pub proof fn law_ended_patch_has_its_output(
    state: ReporterView,
    thread: Seq<char>,
    mode: ModeKind,
    call_id: String,
    stdout: String,
    stderr: String,
    status: RunStatus,
    times: Seq<(i64, i64)>,
)
    requires
        reporter::call_index(state.details.tool_calls, call_id@, 0) is None,
        times.len() == event_updates(thread, mode, (EventMsg::PatchApplyEnd { call_id, stdout, stderr, status })).len(),
    ensures
        ({
            let after = after_event(state, thread, mode, (EventMsg::PatchApplyEnd { call_id, stdout, stderr, status }), times);
            &&& after.status.activity == ActivityStatus::Thinking
            &&& mode == ModeKind::Plan ==> after.status.mode == ProcessMode::Plan
            &&& mode == ModeKind::Default ==> after.status.mode == ProcessMode::Default
            &&& after.status.thread_id == Some(reporter::bounded(thread))
            &&& after.status.summary == Some(reporter::bounded("patch completed"@))
            &&& after.status.error is None
            &&& after.details.tool_calls == reporter::pushed_bounded(
                state.details.tool_calls,
                after.details.tool_calls.last(),
            )
            &&& after.details.tool_calls.last().id == Some(call_id@)
            &&& after.details.tool_calls.last().name == reporter::bounded("apply_patch"@)
            &&& after.details.tool_calls.last().input == reporter::bounded(
                json::json_object_text(seq![("callId"@, json::json_quoted(call_id@))]),
            )
            &&& stderr@.len() > 0 ==> after.details.tool_calls.last().output == Some(
                reporter::bounded(stderr@),
            )
            &&& stderr@.len() == 0 ==> after.details.tool_calls.last().output == Some(
                reporter::bounded(stdout@),
            )
            &&& status == RunStatus::Completed ==> after.details.tool_calls.last().status == reporter::bounded(
                "completed"@,
            )
            &&& status == RunStatus::Failed ==> after.details.tool_calls.last().status == reporter::bounded(
                "failed"@,
            )
            &&& status == RunStatus::Declined ==> after.details.tool_calls.last().status == reporter::bounded(
                "declined"@,
            )
            &&& after.details.tool_calls.last().created_at is Some
            &&& after.details.prompt == state.details.prompt
            &&& after.details.plan == state.details.plan
            &&& after.details.plan_text == state.details.plan_text
            &&& after.details.messages == state.details.messages
        }),
{
    let event = (EventMsg::PatchApplyEnd { call_id, stdout, stderr, status });
    reveal(call_input);
    lemma_other_event(thread, mode, event);
    lemma_tool_event_is_no_activity(process_mode(mode), event);
    lemma_event_of_three(state, thread, mode, event, times);
    reveal(applied);
}

/// A call of a dynamic tool that begins is a running tool call with its arguments and its namespace as the
/// input. The worker runs a tool. All other content stays.
#[verifier::spinoff_prover]
pub proof fn law_begun_dynamic_call_is_a_running_call(
    state: ReporterView,
    thread: Seq<char>,
    mode: ModeKind,
    call_id: String,
    namespace: Option<String>,
    tool: String,
    tool_arguments: serde_json::Value,
    times: Seq<(i64, i64)>,
)
    requires
        reporter::call_index(state.details.tool_calls, call_id@, 0) is None,
        times.len() == event_updates(thread, mode, (EventMsg::DynamicToolCallRequest { call_id, namespace, tool, tool_arguments })).len(),
    ensures
        ({
            let after = after_event(state, thread, mode, (EventMsg::DynamicToolCallRequest { call_id, namespace, tool, tool_arguments }), times);
            &&& after.status.activity == ActivityStatus::ExecutingTool
            &&& mode == ModeKind::Plan ==> after.status.mode == ProcessMode::Plan
            &&& mode == ModeKind::Default ==> after.status.mode == ProcessMode::Default
            &&& after.status.thread_id == Some(reporter::bounded(thread))
            &&& after.status.summary == Some(reporter::bounded("dynamic tool "@ + tool@))
            &&& after.status.error is None
            &&& after.details.tool_calls == reporter::pushed_bounded(
                state.details.tool_calls,
                after.details.tool_calls.last(),
            )
            &&& after.details.tool_calls.last().id == Some(call_id@)
            &&& after.details.tool_calls.last().name == reporter::bounded(tool@)
            &&& after.details.tool_calls.last().input == reporter::bounded(
                json::json_object_text(
                    seq![
                        ("arguments"@, json::json_text(tool_arguments)),
                        ("callId"@, json::json_quoted(call_id@)),
                        ("namespace"@, json::json_optional(text::opt_text(namespace))),
                    ],
                ),
            )
            &&& after.details.tool_calls.last().output is None
            &&& after.details.tool_calls.last().status == reporter::bounded("running"@)
            &&& after.details.tool_calls.last().created_at is Some
            &&& after.details.prompt == state.details.prompt
            &&& after.details.plan == state.details.plan
            &&& after.details.plan_text == state.details.plan_text
            &&& after.details.messages == state.details.messages
        }),
{
    let event = (EventMsg::DynamicToolCallRequest { call_id, namespace, tool, tool_arguments });
    reveal(dynamic_input);
    lemma_other_event(thread, mode, event);
    lemma_tool_event_is_no_activity(process_mode(mode), event);
    lemma_event_of_three(state, thread, mode, event, times);
    reveal(applied);
}

/// A call of a dynamic tool that ended is a tool call with its content, and says whether it succeeded. The
/// worker thinks. All other content stays.
#[verifier::spinoff_prover]
pub proof fn law_ended_dynamic_call_has_its_content(
    state: ReporterView,
    thread: Seq<char>,
    mode: ModeKind,
    call_id: String,
    tool: String,
    content_items: Option<String>,
    success: bool,
    times: Seq<(i64, i64)>,
)
    requires
        reporter::call_index(state.details.tool_calls, call_id@, 0) is None,
        times.len() == event_updates(thread, mode, (EventMsg::DynamicToolCallResponse { call_id, tool, content_items, success })).len(),
    ensures
        ({
            let after = after_event(state, thread, mode, (EventMsg::DynamicToolCallResponse { call_id, tool, content_items, success }), times);
            &&& after.status.activity == ActivityStatus::Thinking
            &&& mode == ModeKind::Plan ==> after.status.mode == ProcessMode::Plan
            &&& mode == ModeKind::Default ==> after.status.mode == ProcessMode::Default
            &&& after.status.thread_id == Some(reporter::bounded(thread))
            &&& after.status.summary == Some(reporter::bounded("dynamic tool completed"@))
            &&& after.status.error is None
            &&& after.details.tool_calls == reporter::pushed_bounded(
                state.details.tool_calls,
                after.details.tool_calls.last(),
            )
            &&& after.details.tool_calls.last().id == Some(call_id@)
            &&& after.details.tool_calls.last().name == reporter::bounded(tool@)
            &&& after.details.tool_calls.last().input == reporter::bounded(
                json::json_object_text(seq![("callId"@, json::json_quoted(call_id@))]),
            )
            &&& content_items matches Some(content) ==> after.details.tool_calls.last().output
                == Some(reporter::bounded(content@))
            &&& content_items is None ==> after.details.tool_calls.last().output is None
            &&& success ==> after.details.tool_calls.last().status == reporter::bounded(
                "completed"@,
            )
            &&& !success ==> after.details.tool_calls.last().status == reporter::bounded(
                "failed"@,
            )
            &&& after.details.tool_calls.last().created_at is Some
            &&& after.details.prompt == state.details.prompt
            &&& after.details.plan == state.details.plan
            &&& after.details.plan_text == state.details.plan_text
            &&& after.details.messages == state.details.messages
        }),
{
    let event = (EventMsg::DynamicToolCallResponse { call_id, tool, content_items, success });
    reveal(call_input);
    lemma_other_event(thread, mode, event);
    lemma_tool_event_is_no_activity(process_mode(mode), event);
    lemma_event_of_three(state, thread, mode, event, times);
    reveal(applied);
}

} // verus!
