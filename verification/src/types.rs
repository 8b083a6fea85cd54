//! The facts that the supervisor keeps about its workers and the content that workers expose.
use crate::ids::ProcessId;
use crate::text;
use vstd::prelude::*;

verus! {

/// The largest number of items on one page.
pub const MAX_PAGE_LIMIT: u32 = 50;

/// What kind of process is managed.
#[derive(Debug, Clone, Copy, PartialEq, Eq, Structural)]
pub enum ProcessKind {
    Tui,
    Cli,
}

/// The lifecycle of a process. `Unresponsive` means that a query could not reach the worker.
#[derive(Debug, Clone, Copy, PartialEq, Eq, Structural)]
pub enum ProcessStatus {
    Starting,
    Running,
    Stopping,
    Exited,
    Unresponsive,
}

/// What a worker is doing. A running process can think, run a tool or wait for its user.
#[derive(Debug, Clone, Copy, PartialEq, Eq, Structural)]
pub enum ActivityStatus {
    Idle,
    Thinking,
    ExecutingTool,
    WaitingForUserInput,
    WaitingForApproval,
    Error,
}

impl Default for ActivityStatus {
    fn default() -> (r: Self)
        ensures
            r == ActivityStatus::Idle,
    {
        ActivityStatus::Idle
    }
}

/// The mode of a session, independent of its activity.
#[derive(Debug, Clone, Copy, PartialEq, Eq, Structural)]
pub enum ProcessMode {
    Default,
    Plan,
    Review,
    Mixed,
}

impl Default for ProcessMode {
    fn default() -> (r: Self)
        ensures
            r == ProcessMode::Default,
    {
        ProcessMode::Default
    }
}

/// The part of a worker's content that a query asks for.
#[derive(Debug, Clone, Copy, PartialEq, Eq, Structural)]
pub enum WorkSection {
    Prompt,
    Plan,
    Messages,
    ToolCalls,
}

/// The light-weight state that a worker reports about itself.
#[derive(Debug, PartialEq, Eq)]
pub struct WorkerStatus {
    pub thread_id: Option<String>,
    pub activity: ActivityStatus,
    pub mode: ProcessMode,
    pub summary: Option<String>,
    pub error: Option<String>,
    pub updated_at: i64,
}

/// The view of [`WorkerStatus`].
#[verifier::ext_equal]
pub struct WorkerStatusView {
    pub thread_id: Option<Seq<char>>,
    pub activity: ActivityStatus,
    pub mode: ProcessMode,
    pub summary: Option<Seq<char>>,
    pub error: Option<Seq<char>>,
    pub updated_at: i64,
}

impl View for WorkerStatus {
    type V = WorkerStatusView;

    open spec fn view(&self) -> WorkerStatusView {
        WorkerStatusView {
            thread_id: text::opt_text(self.thread_id),
            activity: self.activity,
            mode: self.mode,
            summary: text::opt_text(self.summary),
            error: text::opt_text(self.error),
            updated_at: self.updated_at,
        }
    }
}

impl Clone for WorkerStatus {
    fn clone(&self) -> (r: Self)
        ensures
            r@ == self@,
    {
        WorkerStatus {
            thread_id: text::clone_optional(&self.thread_id),
            activity: self.activity,
            mode: self.mode,
            summary: text::clone_optional(&self.summary),
            error: text::clone_optional(&self.error),
            updated_at: self.updated_at,
        }
    }
}

/// One step of a checklist.
#[derive(Debug, PartialEq, Eq)]
pub struct PlanStep {
    pub step: String,
    pub status: String,
}

/// The view of [`PlanStep`].
#[verifier::ext_equal]
pub struct PlanStepView {
    pub step: Seq<char>,
    pub status: Seq<char>,
}

impl View for PlanStep {
    type V = PlanStepView;

    open spec fn view(&self) -> PlanStepView {
        PlanStepView {
            step: self.step@,
            status: self.status@,
        }
    }
}

impl Clone for PlanStep {
    fn clone(&self) -> (r: Self)
        ensures
            r@ == self@,
    {
        PlanStep {
            step: self.step.clone(),
            status: self.status.clone(),
        }
    }
}

/// Copies a list of [`PlanStep`].
fn clone_plan_steps(values: &Vec<PlanStep>) -> (r: Vec<PlanStep>)
    ensures
        r@.len() == values@.len(),
        forall|i: int| 0 <= i < values@.len() ==> (#[trigger] r@[i])@ == values@[i]@,
{
    let mut out: Vec<PlanStep> = Vec::new();
    let mut i: usize = 0;
    while i < values.len()
        invariant
            i <= values@.len(),
            out@.len() == i,
            forall|j: int| 0 <= j < i ==> (#[trigger] out@[j])@ == values@[j]@,
        decreases values@.len() - i,
    {
        out.push(values[i].clone());
        i = i + 1;
    }
    out
}

/// One message of a conversation.
#[derive(Debug, PartialEq, Eq)]
pub struct WorkMessage {
    pub role: String,
    pub content: String,
    pub created_at: Option<i64>,
}

/// The view of [`WorkMessage`].
#[verifier::ext_equal]
pub struct WorkMessageView {
    pub role: Seq<char>,
    pub content: Seq<char>,
    pub created_at: Option<i64>,
}

impl View for WorkMessage {
    type V = WorkMessageView;

    open spec fn view(&self) -> WorkMessageView {
        WorkMessageView {
            role: self.role@,
            content: self.content@,
            created_at: self.created_at,
        }
    }
}

impl Clone for WorkMessage {
    fn clone(&self) -> (r: Self)
        ensures
            r@ == self@,
    {
        WorkMessage {
            role: self.role.clone(),
            content: self.content.clone(),
            created_at: self.created_at,
        }
    }
}

/// Copies a list of [`WorkMessage`].
fn clone_work_messages(values: &Vec<WorkMessage>) -> (r: Vec<WorkMessage>)
    ensures
        r@.len() == values@.len(),
        forall|i: int| 0 <= i < values@.len() ==> (#[trigger] r@[i])@ == values@[i]@,
{
    let mut out: Vec<WorkMessage> = Vec::new();
    let mut i: usize = 0;
    while i < values.len()
        invariant
            i <= values@.len(),
            out@.len() == i,
            forall|j: int| 0 <= j < i ==> (#[trigger] out@[j])@ == values@[j]@,
        decreases values@.len() - i,
    {
        out.push(values[i].clone());
        i = i + 1;
    }
    out
}

/// One tool call with its input and output. The identifier joins the events of one call's lifecycle.
#[derive(Debug, PartialEq, Eq)]
pub struct ToolCallRecord {
    pub id: Option<String>,
    pub name: String,
    pub input: String,
    pub output: Option<String>,
    pub status: String,
    pub created_at: Option<i64>,
}

/// The view of [`ToolCallRecord`].
#[verifier::ext_equal]
pub struct ToolCallRecordView {
    pub id: Option<Seq<char>>,
    pub name: Seq<char>,
    pub input: Seq<char>,
    pub output: Option<Seq<char>>,
    pub status: Seq<char>,
    pub created_at: Option<i64>,
}

impl View for ToolCallRecord {
    type V = ToolCallRecordView;

    open spec fn view(&self) -> ToolCallRecordView {
        ToolCallRecordView {
            id: text::opt_text(self.id),
            name: self.name@,
            input: self.input@,
            output: text::opt_text(self.output),
            status: self.status@,
            created_at: self.created_at,
        }
    }
}

impl Clone for ToolCallRecord {
    fn clone(&self) -> (r: Self)
        ensures
            r@ == self@,
    {
        ToolCallRecord {
            id: text::clone_optional(&self.id),
            name: self.name.clone(),
            input: self.input.clone(),
            output: text::clone_optional(&self.output),
            status: self.status.clone(),
            created_at: self.created_at,
        }
    }
}

/// Copies a list of [`ToolCallRecord`].
fn clone_tool_call_records(values: &Vec<ToolCallRecord>) -> (r: Vec<ToolCallRecord>)
    ensures
        r@.len() == values@.len(),
        forall|i: int| 0 <= i < values@.len() ==> (#[trigger] r@[i])@ == values@[i]@,
{
    let mut out: Vec<ToolCallRecord> = Vec::new();
    let mut i: usize = 0;
    while i < values.len()
        invariant
            i <= values@.len(),
            out@.len() == i,
            forall|j: int| 0 <= j < i ==> (#[trigger] out@[j])@ == values@[j]@,
        decreases values@.len() - i,
    {
        out.push(values[i].clone());
        i = i + 1;
    }
    out
}

/// One entry of a page, whatever section it comes from.
#[derive(Debug, PartialEq, Eq)]
pub struct WorkItem {
    pub index: usize,
    pub title: String,
    pub content: String,
    pub id: Option<String>,
    pub status: Option<String>,
    pub input: Option<String>,
    pub output: Option<String>,
    pub created_at: Option<i64>,
}

/// The view of [`WorkItem`].
#[verifier::ext_equal]
pub struct WorkItemView {
    pub index: usize,
    pub title: Seq<char>,
    pub content: Seq<char>,
    pub id: Option<Seq<char>>,
    pub status: Option<Seq<char>>,
    pub input: Option<Seq<char>>,
    pub output: Option<Seq<char>>,
    pub created_at: Option<i64>,
}

impl View for WorkItem {
    type V = WorkItemView;

    open spec fn view(&self) -> WorkItemView {
        WorkItemView {
            index: self.index,
            title: self.title@,
            content: self.content@,
            id: text::opt_text(self.id),
            status: text::opt_text(self.status),
            input: text::opt_text(self.input),
            output: text::opt_text(self.output),
            created_at: self.created_at,
        }
    }
}

impl Clone for WorkItem {
    fn clone(&self) -> (r: Self)
        ensures
            r@ == self@,
    {
        WorkItem {
            index: self.index,
            title: self.title.clone(),
            content: self.content.clone(),
            id: text::clone_optional(&self.id),
            status: text::clone_optional(&self.status),
            input: text::clone_optional(&self.input),
            output: text::clone_optional(&self.output),
            created_at: self.created_at,
        }
    }
}

/// Copies a list of [`WorkItem`].
fn clone_work_items(values: &Vec<WorkItem>) -> (r: Vec<WorkItem>)
    ensures
        r@.len() == values@.len(),
        forall|i: int| 0 <= i < values@.len() ==> (#[trigger] r@[i])@ == values@[i]@,
{
    let mut out: Vec<WorkItem> = Vec::new();
    let mut i: usize = 0;
    while i < values.len()
        invariant
            i <= values@.len(),
            out@.len() == i,
            forall|j: int| 0 <= j < i ==> (#[trigger] out@[j])@ == values@[j]@,
        decreases values@.len() - i,
    {
        out.push(values[i].clone());
        i = i + 1;
    }
    out
}

/// One page of a worker's content. The plan text comes with the first page of the plan section only.
#[derive(Debug, PartialEq, Eq)]
pub struct WorkPage {
    pub process_id: ProcessId,
    pub section: WorkSection,
    pub items: Vec<WorkItem>,
    pub next_cursor: Option<String>,
    pub plan_text: Option<String>,
}

/// The view of [`WorkPage`].
#[verifier::ext_equal]
pub struct WorkPageView {
    pub process_id: ProcessId,
    pub section: WorkSection,
    pub items: Seq<WorkItemView>,
    pub next_cursor: Option<Seq<char>>,
    pub plan_text: Option<Seq<char>>,
}

impl View for WorkPage {
    type V = WorkPageView;

    open spec fn view(&self) -> WorkPageView {
        WorkPageView {
            process_id: self.process_id,
            section: self.section,
            items: Seq::new(self.items@.len(), |i: int| self.items@[i]@),
            next_cursor: text::opt_text(self.next_cursor),
            plan_text: text::opt_text(self.plan_text),
        }
    }
}

impl Clone for WorkPage {
    fn clone(&self) -> (r: Self)
        ensures
            r@ == self@,
    {
        let items = clone_work_items(&self.items);
        WorkPage {
            process_id: self.process_id,
            section: self.section,
            items,
            next_cursor: text::clone_optional(&self.next_cursor),
            plan_text: text::clone_optional(&self.plan_text),
        }
    }
}

/// All content that a worker keeps. Queries read it page by page.
#[derive(Debug, PartialEq, Eq)]
pub struct WorkerDetails {
    pub prompt: Option<String>,
    pub plan_text: Option<String>,
    pub plan: Vec<PlanStep>,
    pub messages: Vec<WorkMessage>,
    pub tool_calls: Vec<ToolCallRecord>,
}

/// The view of [`WorkerDetails`].
#[verifier::ext_equal]
pub struct WorkerDetailsView {
    pub prompt: Option<Seq<char>>,
    pub plan_text: Option<Seq<char>>,
    pub plan: Seq<PlanStepView>,
    pub messages: Seq<WorkMessageView>,
    pub tool_calls: Seq<ToolCallRecordView>,
}

impl View for WorkerDetails {
    type V = WorkerDetailsView;

    open spec fn view(&self) -> WorkerDetailsView {
        WorkerDetailsView {
            prompt: text::opt_text(self.prompt),
            plan_text: text::opt_text(self.plan_text),
            plan: Seq::new(self.plan@.len(), |i: int| self.plan@[i]@),
            messages: Seq::new(self.messages@.len(), |i: int| self.messages@[i]@),
            tool_calls: Seq::new(self.tool_calls@.len(), |i: int| self.tool_calls@[i]@),
        }
    }
}

impl Clone for WorkerDetails {
    fn clone(&self) -> (r: Self)
        ensures
            r@ == self@,
    {
        let plan = clone_plan_steps(&self.plan);
        let messages = clone_work_messages(&self.messages);
        let tool_calls = clone_tool_call_records(&self.tool_calls);
        WorkerDetails {
            prompt: text::clone_optional(&self.prompt),
            plan_text: text::clone_optional(&self.plan_text),
            plan,
            messages,
            tool_calls,
        }
    }
}

/// What the supervisor knows about one process.
#[derive(Debug, PartialEq, Eq)]
pub struct ProcessRecord {
    pub id: ProcessId,
    pub pid: u32,
    pub parent_pid: Option<u32>,
    pub kind: ProcessKind,
    pub status: ProcessStatus,
    pub activity: ActivityStatus,
    pub mode: ProcessMode,
    pub summary: Option<String>,
    pub error: Option<String>,
    pub executable: String,
    pub argv: Vec<String>,
    pub cwd: String,
    pub thread_id: Option<String>,
    pub created_at: i64,
    pub last_observed_at: i64,
    pub last_state_update_at: i64,
    pub exit_code: Option<i32>,
}

/// The view of [`ProcessRecord`].
#[verifier::ext_equal]
pub struct ProcessRecordView {
    pub id: ProcessId,
    pub pid: u32,
    pub parent_pid: Option<u32>,
    pub kind: ProcessKind,
    pub status: ProcessStatus,
    pub activity: ActivityStatus,
    pub mode: ProcessMode,
    pub summary: Option<Seq<char>>,
    pub error: Option<Seq<char>>,
    pub executable: Seq<char>,
    pub argv: Seq<Seq<char>>,
    pub cwd: Seq<char>,
    pub thread_id: Option<Seq<char>>,
    pub created_at: i64,
    pub last_observed_at: i64,
    pub last_state_update_at: i64,
    pub exit_code: Option<i32>,
}

impl View for ProcessRecord {
    type V = ProcessRecordView;

    open spec fn view(&self) -> ProcessRecordView {
        ProcessRecordView {
            id: self.id,
            pid: self.pid,
            parent_pid: self.parent_pid,
            kind: self.kind,
            status: self.status,
            activity: self.activity,
            mode: self.mode,
            summary: text::opt_text(self.summary),
            error: text::opt_text(self.error),
            executable: self.executable@,
            argv: text::texts(self.argv@),
            cwd: self.cwd@,
            thread_id: text::opt_text(self.thread_id),
            created_at: self.created_at,
            last_observed_at: self.last_observed_at,
            last_state_update_at: self.last_state_update_at,
            exit_code: self.exit_code,
        }
    }
}

impl Clone for ProcessRecord {
    fn clone(&self) -> (r: Self)
        ensures
            r@ == self@,
    {
        ProcessRecord {
            id: self.id,
            pid: self.pid,
            parent_pid: self.parent_pid,
            kind: self.kind,
            status: self.status,
            activity: self.activity,
            mode: self.mode,
            summary: text::clone_optional(&self.summary),
            error: text::clone_optional(&self.error),
            executable: self.executable.clone(),
            argv: text::clone_texts(&self.argv),
            cwd: self.cwd.clone(),
            thread_id: text::clone_optional(&self.thread_id),
            created_at: self.created_at,
            last_observed_at: self.last_observed_at,
            last_state_update_at: self.last_state_update_at,
            exit_code: self.exit_code,
        }
    }
}

/// Copies a list of [`ProcessRecord`].
fn clone_process_records(values: &Vec<ProcessRecord>) -> (r: Vec<ProcessRecord>)
    ensures
        r@.len() == values@.len(),
        forall|i: int| 0 <= i < values@.len() ==> (#[trigger] r@[i])@ == values@[i]@,
{
    let mut out: Vec<ProcessRecord> = Vec::new();
    let mut i: usize = 0;
    while i < values.len()
        invariant
            i <= values@.len(),
            out@.len() == i,
            forall|j: int| 0 <= j < i ==> (#[trigger] out@[j])@ == values@[j]@,
        decreases values@.len() - i,
    {
        out.push(values[i].clone());
        i = i + 1;
    }
    out
}

/// All processes at one moment.
#[derive(Debug, PartialEq, Eq)]
pub struct SupervisorSnapshot {
    pub protocol_version: u32,
    pub daemon_pid: u32,
    pub processes: Vec<ProcessRecord>,
}

/// The view of [`SupervisorSnapshot`].
#[verifier::ext_equal]
pub struct SupervisorSnapshotView {
    pub protocol_version: u32,
    pub daemon_pid: u32,
    pub processes: Seq<ProcessRecordView>,
}

impl View for SupervisorSnapshot {
    type V = SupervisorSnapshotView;

    open spec fn view(&self) -> SupervisorSnapshotView {
        SupervisorSnapshotView {
            protocol_version: self.protocol_version,
            daemon_pid: self.daemon_pid,
            processes: Seq::new(self.processes@.len(), |i: int| self.processes@[i]@),
        }
    }
}

impl Clone for SupervisorSnapshot {
    fn clone(&self) -> (r: Self)
        ensures
            r@ == self@,
    {
        let processes = clone_process_records(&self.processes);
        SupervisorSnapshot {
            protocol_version: self.protocol_version,
            daemon_pid: self.daemon_pid,
            processes,
        }
    }
}

/// The views of some steps.
pub open spec fn plan_views(plan: Seq<PlanStep>) -> Seq<PlanStepView> {
    Seq::new(plan.len(), |i: int| plan[i]@)
}

impl Default for WorkerStatus {
    fn default() -> (r: Self)
        ensures
            r@ == (WorkerStatusView {
                thread_id: None,
                activity: ActivityStatus::Idle,
                mode: ProcessMode::Default,
                summary: None,
                error: None,
                updated_at: 0,
            }),
    {
        WorkerStatus {
            thread_id: None,
            activity: ActivityStatus::Idle,
            mode: ProcessMode::Default,
            summary: None,
            error: None,
            updated_at: 0,
        }
    }
}

impl Default for WorkerDetails {
    fn default() -> (r: Self)
        ensures
            r@ == (WorkerDetailsView {
                prompt: None,
                plan_text: None,
                plan: Seq::empty(),
                messages: Seq::empty(),
                tool_calls: Seq::empty(),
            }),
    {
        WorkerDetails {
            prompt: None,
            plan_text: None,
            plan: Vec::new(),
            messages: Vec::new(),
            tool_calls: Vec::new(),
        }
    }
}

} // verus!
