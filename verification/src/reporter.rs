//! The state and the content that a worker reports about itself.
//!
//! [`ReporterState`] holds the rules and takes the time as an argument. [`SupervisorReporter`] is the
//! handle that the rest of a program writes to: it reads the clock and applies the same rules.
//! Everything kept is bounded, in the number of items and in the size of each text.
use crate::ids::ProcessId;
use crate::types::{
    ActivityStatus, PlanStep, PlanStepView, ProcessMode, ToolCallRecord, ToolCallRecordView,
    WorkMessage, WorkMessageView, WorkPage, WorkSection, WorkerDetails, WorkerDetailsView,
    WorkerStatus, WorkerStatusView,
};
use crate::{clock, pages, text, types};
use vstd::prelude::*;

verus! {

/// The largest number of plan steps, messages or tool calls that a worker keeps.
pub const MAX_WORK_ITEMS: usize = 256;

/// The size in bytes from which on a text is cut.
pub const MAX_TEXT_BYTES: usize = 65536;

/// The size in bytes of the largest text that a worker keeps: a cut text with its marker.
pub const MAX_KEPT_BYTES: usize = 65556;

/// A text as it is kept: whole, or cut with a marker at the end.
pub open spec fn bounded(s: Seq<char>) -> Seq<char> {
    text::truncated(s, MAX_TEXT_BYTES as nat, "\n[content truncated]"@)
}

/// An optional text as it is kept.
pub open spec fn bounded_optional(s: Option<Seq<char>>) -> Option<Seq<char>> {
    match s {
        Some(s) => Some(bounded(s)),
        None => None,
    }
}

/// A list with one more item. A full list loses its oldest item first.
pub open spec fn pushed_bounded<T>(items: Seq<T>, item: T) -> Seq<T> {
    if items.len() >= MAX_WORK_ITEMS {
        items.drop_first().push(item)
    } else {
        items.push(item)
    }
}

/// The view of [`ReporterState`].
#[verifier::ext_equal]
pub struct ReporterView {
    pub status: WorkerStatusView,
    pub details: WorkerDetailsView,
}

/// Whether a text is as small as every kept text.
pub open spec fn kept(s: Seq<char>) -> bool {
    text::byte_len(s) <= MAX_KEPT_BYTES
}

/// Whether an optional text is as small as every kept text.
pub open spec fn kept_optional(s: Option<Seq<char>>) -> bool {
    s matches Some(s) ==> kept(s)
}

impl ReporterView {
    /// The state before anything was reported.
    pub open spec fn initial() -> ReporterView {
        ReporterView {
            status: WorkerStatusView {
                thread_id: None,
                activity: ActivityStatus::Idle,
                mode: ProcessMode::Default,
                summary: None,
                error: None,
                updated_at: 0,
            },
            details: WorkerDetailsView {
                prompt: None,
                plan_text: None,
                plan: Seq::empty(),
                messages: Seq::empty(),
                tool_calls: Seq::empty(),
            },
        }
    }

    /// Every text and every list is bounded, every message and every tool call has a time, and no
    /// two tool calls share an identifier.
    pub open spec fn well_formed(self) -> bool {
        &&& kept_optional(self.status.thread_id)
        &&& kept_optional(self.status.summary)
        &&& kept_optional(self.status.error)
        &&& kept_optional(self.details.prompt)
        &&& kept_optional(self.details.plan_text)
        &&& self.details.plan.len() <= MAX_WORK_ITEMS
        &&& self.details.messages.len() <= MAX_WORK_ITEMS
        &&& self.details.tool_calls.len() <= MAX_WORK_ITEMS
        &&& forall|i: int|
            0 <= i < self.details.plan.len() ==> kept((#[trigger] self.details.plan[i]).step)
                && kept(self.details.plan[i].status)
        &&& forall|i: int|
            0 <= i < self.details.messages.len() ==> kept(
                (#[trigger] self.details.messages[i]).role,
            ) && kept(self.details.messages[i].content)
                && self.details.messages[i].created_at is Some
        &&& forall|i: int|
            0 <= i < self.details.tool_calls.len() ==> call_kept(
                #[trigger] self.details.tool_calls[i],
            ) && self.details.tool_calls[i].created_at is Some
        &&& ids_differ(self.details.tool_calls)
    }

    /// The status replaced as a whole.
    pub open spec fn with_status(self, status: WorkerStatusView) -> ReporterView {
        ReporterView {
            status: WorkerStatusView {
                thread_id: bounded_optional(status.thread_id),
                summary: bounded_optional(status.summary),
                error: bounded_optional(status.error),
                ..status
            },
            ..self
        }
    }

    /// Another thread.
    pub open spec fn with_thread_id(self, thread_id: Option<Seq<char>>, now: i64) -> ReporterView {
        ReporterView {
            status: WorkerStatusView {
                thread_id: bounded_optional(thread_id),
                updated_at: now,
                ..self.status
            },
            ..self
        }
    }

    /// Another activity, which ends an error.
    pub open spec fn with_activity(
        self,
        activity: ActivityStatus,
        mode: ProcessMode,
        summary: Option<Seq<char>>,
        now: i64,
    ) -> ReporterView {
        ReporterView {
            status: WorkerStatusView {
                activity,
                mode,
                summary: bounded_optional(summary),
                error: None,
                updated_at: now,
                ..self.status
            },
            ..self
        }
    }

    /// An error, which is the summary as well.
    pub open spec fn with_error(self, error: Seq<char>, now: i64) -> ReporterView {
        ReporterView {
            status: WorkerStatusView {
                activity: ActivityStatus::Error,
                error: Some(bounded(error)),
                summary: Some(bounded(error)),
                updated_at: now,
                ..self.status
            },
            ..self
        }
    }

    /// Other content, at a time.
    pub open spec fn with_details(self, details: WorkerDetailsView, now: i64) -> ReporterView {
        ReporterView { status: WorkerStatusView { updated_at: now, ..self.status }, details }
    }

    /// Another prompt.
    pub open spec fn with_prompt(self, prompt: Seq<char>, now: i64) -> ReporterView {
        self.with_details(
            WorkerDetailsView { prompt: Some(bounded(prompt)), ..self.details },
            now,
        )
    }

    /// Another plan text.
    pub open spec fn with_plan_text(self, plan_text: Seq<char>, now: i64) -> ReporterView {
        self.with_details(
            WorkerDetailsView { plan_text: Some(bounded(plan_text)), ..self.details },
            now,
        )
    }

    /// A longer plan text. Nothing happens when nothing is added.
    pub open spec fn with_plan_delta(self, delta: Seq<char>, now: i64) -> ReporterView {
        if delta.len() == 0 {
            self
        } else {
            let before = match self.details.plan_text {
                Some(plan_text) => plan_text,
                None => Seq::empty(),
            };
            self.with_plan_text(before + delta, now)
        }
    }

    /// Another checklist: the first steps, each bounded.
    pub open spec fn with_plan(self, plan: Seq<PlanStepView>, now: i64) -> ReporterView {
        let count = if plan.len() < MAX_WORK_ITEMS {
            plan.len()
        } else {
            MAX_WORK_ITEMS as nat
        };
        self.with_details(
            WorkerDetailsView {
                plan: Seq::new(
                    count,
                    |i: int|
                        PlanStepView {
                            step: bounded(plan[i].step),
                            status: bounded(plan[i].status),
                        },
                ),
                ..self.details
            },
            now,
        )
    }

    /// One more message. A message without a time gets `created`.
    pub open spec fn with_message(
        self,
        message: WorkMessageView,
        created: i64,
        now: i64,
    ) -> ReporterView {
        let message = WorkMessageView {
            role: bounded(message.role),
            content: bounded(message.content),
            created_at: or_created(message.created_at, created),
        };
        self.with_details(
            WorkerDetailsView {
                messages: pushed_bounded(self.details.messages, message),
                ..self.details
            },
            now,
        )
    }

    /// A tool call: merged into the record of the same identifier, or a record of its own.
    pub open spec fn with_tool_call(
        self,
        call: ToolCallRecordView,
        created: i64,
        now: i64,
    ) -> ReporterView {
        let call = bounded_call(call, created);
        let calls = self.details.tool_calls;
        let found = match call.id {
            Some(id) => call_index(calls, id, 0),
            None => None,
        };
        let tool_calls = match found {
            Some(index) => calls.update(index, merged_call(calls[index], call)),
            None => pushed_bounded(calls, call),
        };
        self.with_details(WorkerDetailsView { tool_calls, ..self.details }, now)
    }

    /// The state after a report.
    pub open spec fn after(self, report: Report) -> ReporterView {
        match report {
            Report::Status(status) => self.with_status(status),
            Report::ThreadId { thread_id, now } => self.with_thread_id(thread_id, now),
            Report::Activity { activity, mode, summary, now } => self.with_activity(
                activity,
                mode,
                summary,
                now,
            ),
            Report::Error { error, now } => self.with_error(error, now),
            Report::Prompt { prompt, now } => self.with_prompt(prompt, now),
            Report::PlanText { plan_text, now } => self.with_plan_text(plan_text, now),
            Report::PlanDelta { delta, now } => self.with_plan_delta(delta, now),
            Report::Plan { plan, now } => self.with_plan(plan, now),
            Report::Message { message, created, now } => self.with_message(message, created, now),
            Report::ToolCall { call, created, now } => self.with_tool_call(call, created, now),
        }
    }

    /// The state after some reports, in order.
    pub open spec fn after_all(self, reports: Seq<Report>) -> ReporterView
        decreases reports.len(),
    {
        if reports.len() == 0 {
            self
        } else {
            self.after_all(reports.drop_last()).after(reports.last())
        }
    }
}

/// Something that is reported, with the times that the clock gave.
pub enum Report {
    Status(WorkerStatusView),
    ThreadId { thread_id: Option<Seq<char>>, now: i64 },
    Activity {
        activity: ActivityStatus,
        mode: ProcessMode,
        summary: Option<Seq<char>>,
        now: i64,
    },
    Error { error: Seq<char>, now: i64 },
    Prompt { prompt: Seq<char>, now: i64 },
    PlanText { plan_text: Seq<char>, now: i64 },
    PlanDelta { delta: Seq<char>, now: i64 },
    Plan { plan: Seq<PlanStepView>, now: i64 },
    Message { message: WorkMessageView, created: i64, now: i64 },
    ToolCall { call: ToolCallRecordView, created: i64, now: i64 },
}

/// The time of an entry: its own, or the time at which it was recorded.
pub open spec fn or_created(own: Option<i64>, created: i64) -> Option<i64> {
    match own {
        Some(time) => Some(time),
        None => Some(created),
    }
}

/// Whether the texts of a tool call are as small as every kept text.
pub open spec fn call_kept(call: ToolCallRecordView) -> bool {
    kept(call.name) && kept(call.input) && kept_optional(call.output) && kept(call.status)
}

/// No two tool calls share an identifier.
pub open spec fn ids_differ(calls: Seq<ToolCallRecordView>) -> bool {
    forall|i: int, j: int|
        0 <= i < j < calls.len() && (#[trigger] calls[i]).id is Some ==> calls[i].id
            != (#[trigger] calls[j]).id
}

/// A tool call as it is kept.
pub open spec fn bounded_call(call: ToolCallRecordView, created: i64) -> ToolCallRecordView {
    ToolCallRecordView {
        id: call.id,
        name: bounded(call.name),
        input: bounded(call.input),
        output: bounded_optional(call.output),
        status: bounded(call.status),
        created_at: or_created(call.created_at, created),
    }
}

/// The position of the first record with an identifier, from `from` on.
pub open spec fn call_index(calls: Seq<ToolCallRecordView>, id: Seq<char>, from: int) -> Option<int>
    decreases calls.len() - from,
{
    if from >= calls.len() {
        None
    } else if calls[from].id == Some(id) {
        Some(from)
    } else {
        call_index(calls, id, from + 1)
    }
}

/// A record after a later event of the same call: an input, an output and a time stay where the
/// event has none to offer; an input and a time that are there stay in any case.
pub open spec fn merged_call(
    existing: ToolCallRecordView,
    call: ToolCallRecordView,
) -> ToolCallRecordView {
    ToolCallRecordView {
        id: existing.id,
        name: call.name,
        input: if existing.input.len() == 0 {
            call.input
        } else {
            existing.input
        },
        output: if call.output is Some {
            call.output
        } else {
            existing.output
        },
        status: call.status,
        created_at: if existing.created_at is None {
            call.created_at
        } else {
            existing.created_at
        },
    }
}

proof fn lemma_bounded_is_kept(s: Seq<char>)
    ensures
        kept(bounded(s)),
{
    reveal_strlit("\n[content truncated]");
    let marker = "\n[content truncated]"@;
    assert(vstd::utf8::is_ascii_chars(marker));
    vstd::utf8::is_ascii_chars_encode_utf8(marker);
    text::lemma_truncated_is_bounded(s, MAX_TEXT_BYTES as nat, marker);
}

proof fn lemma_bounded_optional_is_kept(s: Option<Seq<char>>)
    ensures
        kept_optional(bounded_optional(s)),
{
    if let Some(s) = s {
        lemma_bounded_is_kept(s);
    }
}

proof fn lemma_call_index(calls: Seq<ToolCallRecordView>, id: Seq<char>, from: int)
    requires
        0 <= from,
    ensures
        match call_index(calls, id, from) {
            Some(index) => from <= index < calls.len() && calls[index].id == Some(id),
            None => forall|i: int| from <= i < calls.len() ==> (#[trigger] calls[i]).id != Some(id),
        },
    decreases calls.len() - from,
{
    if from < calls.len() && calls[from].id != Some(id) {
        lemma_call_index(calls, id, from + 1);
    }
}

/// A new status keeps the state well-formed.
pub proof fn law_status_keeps_bounds(state: ReporterView, status: WorkerStatusView)
    requires
        state.well_formed(),
    ensures
        state.with_status(status).well_formed(),
{
    lemma_bounded_optional_is_kept(status.thread_id);
    lemma_bounded_optional_is_kept(status.summary);
    lemma_bounded_optional_is_kept(status.error);
}

/// A new thread, activity or error keeps the state well-formed.
pub proof fn law_activity_keeps_bounds(
    state: ReporterView,
    activity: ActivityStatus,
    mode: ProcessMode,
    text: Option<Seq<char>>,
    error: Seq<char>,
    now: i64,
)
    requires
        state.well_formed(),
    ensures
        state.with_thread_id(text, now).well_formed(),
        state.with_activity(activity, mode, text, now).well_formed(),
        state.with_error(error, now).well_formed(),
{
    lemma_bounded_optional_is_kept(text);
    lemma_bounded_is_kept(error);
}

/// A new prompt, plan text or piece of plan text keeps the state well-formed.
pub proof fn law_prompt_keeps_bounds(state: ReporterView, text: Seq<char>, now: i64)
    requires
        state.well_formed(),
    ensures
        state.with_prompt(text, now).well_formed(),
        state.with_plan_text(text, now).well_formed(),
        state.with_plan_delta(text, now).well_formed(),
{
    lemma_bounded_is_kept(text);
    let before = match state.details.plan_text {
        Some(plan_text) => plan_text,
        None => Seq::empty(),
    };
    lemma_bounded_is_kept(before + text);
}

/// A new checklist keeps the state well-formed.
pub proof fn law_plan_keeps_bounds(state: ReporterView, plan: Seq<PlanStepView>, now: i64)
    requires
        state.well_formed(),
    ensures
        state.with_plan(plan, now).well_formed(),
{
    let after = state.with_plan(plan, now);
    assert forall|i: int| 0 <= i < after.details.plan.len() implies kept(
        (#[trigger] after.details.plan[i]).step,
    ) && kept(after.details.plan[i].status) by {
        lemma_bounded_is_kept(plan[i].step);
        lemma_bounded_is_kept(plan[i].status);
    }
}

/// A new message keeps the state well-formed.
pub proof fn law_message_keeps_bounds(
    state: ReporterView,
    message: WorkMessageView,
    created: i64,
    now: i64,
)
    requires
        state.well_formed(),
    ensures
        state.with_message(message, created, now).well_formed(),
{
    lemma_bounded_is_kept(message.role);
    lemma_bounded_is_kept(message.content);
}

/// A tool call keeps the state well-formed: in particular one identifier has one record.
pub proof fn law_tool_call_keeps_bounds(
    state: ReporterView,
    call: ToolCallRecordView,
    created: i64,
    now: i64,
)
    requires
        state.well_formed(),
    ensures
        state.with_tool_call(call, created, now).well_formed(),
{
    lemma_bounded_is_kept(call.name);
    lemma_bounded_is_kept(call.input);
    lemma_bounded_is_kept(call.status);
    lemma_bounded_optional_is_kept(call.output);
    if let Some(id) = call.id {
        lemma_call_index(state.details.tool_calls, id, 0);
    }
}

/// Whatever is reported keeps the state well-formed.
pub proof fn law_report_keeps_bounds(state: ReporterView, report: Report)
    requires
        state.well_formed(),
    ensures
        state.after(report).well_formed(),
{
    match report {
        Report::Status(status) => law_status_keeps_bounds(state, status),
        Report::ThreadId { thread_id, now } => law_activity_keeps_bounds(
            state,
            ActivityStatus::Idle,
            ProcessMode::Default,
            thread_id,
            Seq::empty(),
            now,
        ),
        Report::Activity { activity, mode, summary, now } => law_activity_keeps_bounds(
            state,
            activity,
            mode,
            summary,
            Seq::empty(),
            now,
        ),
        Report::Error { error, now } => law_activity_keeps_bounds(
            state,
            ActivityStatus::Error,
            ProcessMode::Default,
            None,
            error,
            now,
        ),
        Report::Prompt { prompt, now } => law_prompt_keeps_bounds(state, prompt, now),
        Report::PlanText { plan_text, now } => law_prompt_keeps_bounds(state, plan_text, now),
        Report::PlanDelta { delta, now } => law_prompt_keeps_bounds(state, delta, now),
        Report::Plan { plan, now } => law_plan_keeps_bounds(state, plan, now),
        Report::Message { message, created, now } => law_message_keeps_bounds(
            state,
            message,
            created,
            now,
        ),
        Report::ToolCall { call, created, now } => law_tool_call_keeps_bounds(
            state,
            call,
            created,
            now,
        ),
    }
}

/// Whatever was reported, and however often, the state stays well-formed.
pub proof fn law_reports_keep_bounds(state: ReporterView, reports: Seq<Report>)
    requires
        state.well_formed(),
    ensures
        state.after_all(reports).well_formed(),
    decreases reports.len(),
{
    if reports.len() > 0 {
        law_reports_keep_bounds(state, reports.drop_last());
        law_report_keeps_bounds(state.after_all(reports.drop_last()), reports.last());
    }
}

/// Two events of one tool call leave one record with their identifier. It has the name and the
/// status of the later event, the output of the later event that has one, and the input of the
/// first event that has one.
pub proof fn law_tool_lifecycle_is_one_record(
    state: ReporterView,
    started: ToolCallRecordView,
    completed: ToolCallRecordView,
    times: (i64, i64, i64, i64),
)
    requires
        state.well_formed(),
        started.id is Some,
        completed.id == started.id,
        forall|i: int|
            0 <= i < state.details.tool_calls.len() ==> (#[trigger] state.details.tool_calls[i]).id
                != started.id,
    ensures
        ({
            let after = state.with_tool_call(started, times.0, times.1).with_tool_call(
                completed,
                times.2,
                times.3,
            );
            let calls = after.details.tool_calls;
            &&& calls == pushed_bounded(state.details.tool_calls, calls.last())
            &&& calls.last().id == started.id
            &&& calls.last().name == bounded(completed.name)
            &&& calls.last().status == bounded(completed.status)
            &&& calls.last().output == bounded_optional(
                if completed.output is Some {
                    completed.output
                } else {
                    started.output
                },
            )
            &&& started.input.len() > 0 ==> calls.last().input == bounded(started.input)
            &&& started.input.len() == 0 ==> calls.last().input == bounded(completed.input)
            &&& calls.last().created_at == or_created(started.created_at, times.0)
        }),
{
    let id = started.id.unwrap();
    let calls = state.details.tool_calls;
    let first = bounded_call(started, times.0);
    let middle = state.with_tool_call(started, times.0, times.1);
    lemma_call_index(calls, id, 0);
    assert(middle.details.tool_calls == pushed_bounded(calls, first));
    lemma_call_index(middle.details.tool_calls, id, 0);
    let last = middle.details.tool_calls.len() - 1;
    assert(middle.details.tool_calls[last].id == Some(id));
    let merged = merged_call(first, bounded_call(completed, times.2));
    assert(call_index(middle.details.tool_calls, id, 0) == Some(last));
    assert(middle.details.tool_calls.update(last, merged) =~= pushed_bounded(calls, merged));
    if started.input.len() > 0 {
        lemma_bounded_not_empty(started.input);
    } else {
        lemma_empty_is_small(started.input);
    }
}

/// What is kept of a text that is not empty is not empty.
proof fn lemma_bounded_not_empty(s: Seq<char>)
    requires
        s.len() > 0,
    ensures
        bounded(s).len() > 0,
{
    reveal_strlit("\n[content truncated]");
}

/// An empty text is kept as it is.
proof fn lemma_empty_is_small(s: Seq<char>)
    requires
        s.len() == 0,
    ensures
        bounded(s) == s,
{
}

/// Every page of a worker's content fits into a frame.
pub proof fn law_reported_pages_fit_a_frame(
    state: ReporterView,
    process_id: ProcessId,
    section: WorkSection,
    cursor: Option<Seq<char>>,
    limit: u32,
)
    requires
        state.well_formed(),
    ensures
        pages::page_result(state.details, process_id, section, cursor, limit) matches Ok(page)
            ==> pages::wire_size(page) <= crate::MAX_FRAME_SIZE,
{
    pages::law_every_page_fits_a_frame(state.details, process_id, section, cursor, limit);
}

/// Cuts a text to the size that a worker keeps.
pub fn bound_text(value: &str) -> (r: String)
    ensures
        r@ == bounded(value@),
{
    text::truncate_text(value, MAX_TEXT_BYTES, "\n[content truncated]")
}

/// Cuts an optional text to the size that a worker keeps.
fn bound_optional(value: Option<String>) -> (r: Option<String>)
    ensures
        text::opt_text(r) == bounded_optional(text::opt_text(value)),
{
    match value {
        Some(value) => Some(bound_text(value.as_str())),
        None => None,
    }
}

/// Appends an item to a bounded list.
pub fn push_bounded<T>(items: &mut Vec<T>, item: T)
    ensures
        final(items)@ == pushed_bounded(old(items)@, item),
{
    if items.len() >= MAX_WORK_ITEMS {
        items.remove(0);
        assert(items@ =~= old(items)@.drop_first());
    }
    items.push(item);
}

/// The state of one worker.
#[derive(Debug, PartialEq, Eq)]
pub struct ReporterState {
    pub status: WorkerStatus,
    pub details: WorkerDetails,
}

impl View for ReporterState {
    type V = ReporterView;

    open spec fn view(&self) -> ReporterView {
        ReporterView { status: self.status@, details: self.details@ }
    }
}

impl ReporterState {
    /// The state before anything was reported.
    pub fn new() -> (r: Self)
        ensures
            r@ == ReporterView::initial(),
            r@.well_formed(),
    {
        ReporterState { status: WorkerStatus::default(), details: WorkerDetails::default() }
    }

    /// Replaces the status.
    pub fn update_status(&mut self, status: WorkerStatus)
        ensures
            final(self)@ == old(self)@.with_status(status@),
            old(self)@.well_formed() ==> final(self)@.well_formed(),
    {
        proof {
            if self@.well_formed() {
                law_status_keeps_bounds(self@, status@);
            }
        }
        self.status = WorkerStatus {
            thread_id: bound_optional(status.thread_id),
            activity: status.activity,
            mode: status.mode,
            summary: bound_optional(status.summary),
            error: bound_optional(status.error),
            updated_at: status.updated_at,
        };
    }

    /// Sets the thread that the worker serves.
    pub fn set_thread_id(&mut self, thread_id: Option<String>, now: i64)
        ensures
            final(self)@ == old(self)@.with_thread_id(text::opt_text(thread_id), now),
            old(self)@.well_formed() ==> final(self)@.well_formed(),
    {
        proof {
            if self@.well_formed() {
                law_activity_keeps_bounds(
                    self@,
                    ActivityStatus::Idle,
                    ProcessMode::Default,
                    text::opt_text(thread_id),
                    Seq::empty(),
                    now,
                );
            }
        }
        self.status.thread_id = bound_optional(thread_id);
        self.status.updated_at = now;
    }

    /// Sets what the worker is doing and clears an error.
    pub fn set_activity(
        &mut self,
        activity: ActivityStatus,
        mode: ProcessMode,
        summary: Option<String>,
        now: i64,
    )
        ensures
            final(self)@ == old(self)@.with_activity(activity, mode, text::opt_text(summary), now),
            old(self)@.well_formed() ==> final(self)@.well_formed(),
    {
        proof {
            if self@.well_formed() {
                law_activity_keeps_bounds(
                    self@,
                    activity,
                    mode,
                    text::opt_text(summary),
                    Seq::empty(),
                    now,
                );
            }
        }
        self.status.activity = activity;
        self.status.mode = mode;
        self.status.summary = bound_optional(summary);
        self.status.error = None;
        self.status.updated_at = now;
    }

    /// Reports an error.
    pub fn set_error(&mut self, error: String, now: i64)
        ensures
            final(self)@ == old(self)@.with_error(error@, now),
            old(self)@.well_formed() ==> final(self)@.well_formed(),
    {
        proof {
            if self@.well_formed() {
                law_activity_keeps_bounds(
                    self@,
                    ActivityStatus::Error,
                    ProcessMode::Default,
                    None,
                    error@,
                    now,
                );
            }
        }
        self.status.activity = ActivityStatus::Error;
        self.status.error = Some(bound_text(error.as_str()));
        self.status.summary = Some(bound_text(error.as_str()));
        self.status.updated_at = now;
    }

    /// Sets the prompt.
    pub fn set_prompt(&mut self, prompt: String, now: i64)
        ensures
            final(self)@ == old(self)@.with_prompt(prompt@, now),
            old(self)@.well_formed() ==> final(self)@.well_formed(),
    {
        proof {
            if self@.well_formed() {
                law_prompt_keeps_bounds(self@, prompt@, now);
            }
        }
        self.details.prompt = Some(bound_text(prompt.as_str()));
        self.status.updated_at = now;
    }

    /// Sets the text of the plan.
    pub fn set_plan_text(&mut self, plan_text: String, now: i64)
        ensures
            final(self)@ == old(self)@.with_plan_text(plan_text@, now),
            old(self)@.well_formed() ==> final(self)@.well_formed(),
    {
        proof {
            if self@.well_formed() {
                law_prompt_keeps_bounds(self@, plan_text@, now);
            }
        }
        self.details.plan_text = Some(bound_text(plan_text.as_str()));
        self.status.updated_at = now;
    }

    /// Adds a piece to the text of the plan.
    pub fn append_plan_delta(&mut self, delta: String, now: i64)
        ensures
            final(self)@ == old(self)@.with_plan_delta(delta@, now),
            old(self)@.well_formed() ==> final(self)@.well_formed(),
    {
        proof {
            if self@.well_formed() {
                law_prompt_keeps_bounds(self@, delta@, now);
            }
        }
        if text::is_empty(delta.as_str()) {
            return ;
        }
        let before = match self.details.plan_text.take() {
            Some(plan_text) => plan_text,
            None => String::new(),
        };
        let plan_text = before.concat(delta.as_str());
        self.details.plan_text = Some(bound_text(plan_text.as_str()));
        self.status.updated_at = now;
    }

    /// Sets the checklist.
    pub fn set_plan(&mut self, plan: Vec<PlanStep>, now: i64)
        ensures
            final(self)@ == old(self)@.with_plan(
                types::plan_views(plan@),
                now,
            ),
            old(self)@.well_formed() ==> final(self)@.well_formed(),
    {
        let ghost views = types::plan_views(plan@);
        proof {
            if self@.well_formed() {
                law_plan_keeps_bounds(self@, views, now);
            }
        }
        let count: usize = if plan.len() < MAX_WORK_ITEMS {
            plan.len()
        } else {
            MAX_WORK_ITEMS
        };
        let mut steps: Vec<PlanStep> = Vec::new();
        let mut i: usize = 0;
        while i < count
            invariant
                i <= count <= plan@.len(),
                views == types::plan_views(plan@),
                steps@.len() == i,
                forall|j: int|
                    0 <= j < i ==> (#[trigger] steps@[j])@ == (PlanStepView {
                        step: bounded(views[j].step),
                        status: bounded(views[j].status),
                    }),
            decreases count - i,
        {
            steps.push(
                PlanStep {
                    step: bound_text(plan[i].step.as_str()),
                    status: bound_text(plan[i].status.as_str()),
                },
            );
            i = i + 1;
        }
        self.details.plan = steps;
        self.status.updated_at = now;
        assert(self@ =~= old(self)@.with_plan(views, now));
    }

    /// Adds a message. A message without a time gets `created`.
    pub fn append_message(&mut self, message: WorkMessage, created: i64, now: i64)
        ensures
            final(self)@ == old(self)@.with_message(message@, created, now),
            old(self)@.well_formed() ==> final(self)@.well_formed(),
    {
        proof {
            if self@.well_formed() {
                law_message_keeps_bounds(self@, message@, created, now);
            }
        }
        let entry = WorkMessage {
            role: bound_text(message.role.as_str()),
            content: bound_text(message.content.as_str()),
            created_at: match message.created_at {
                Some(time) => Some(time),
                None => Some(created),
            },
        };
        let ghost before = self.details@.messages;
        push_bounded(&mut self.details.messages, entry);
        self.status.updated_at = now;
        assert(self@.details.messages =~= pushed_bounded(before, entry@));
        assert(self@ =~= old(self)@.with_message(message@, created, now));
    }

    /// Records an event of a tool call: merges it into the record with the same identifier, or adds
    /// a record. A call without a time gets `created`.
    pub fn upsert_tool_call(&mut self, call: ToolCallRecord, created: i64, now: i64)
        ensures
            final(self)@ == old(self)@.with_tool_call(call@, created, now),
            old(self)@.well_formed() ==> final(self)@.well_formed(),
    {
        proof {
            if self@.well_formed() {
                law_tool_call_keeps_bounds(self@, call@, created, now);
            }
        }
        let ghost given = call@;
        let entry = ToolCallRecord {
            id: call.id,
            name: bound_text(call.name.as_str()),
            input: bound_text(call.input.as_str()),
            output: bound_optional(call.output),
            status: bound_text(call.status.as_str()),
            created_at: match call.created_at {
                Some(time) => Some(time),
                None => Some(created),
            },
        };
        assert(entry@ =~= bounded_call(given, created));
        let ghost before = self@.details.tool_calls;
        let found = match &entry.id {
            Some(id) => find_call(&self.details.tool_calls, id),
            None => None,
        };
        match found {
            Some(index) => {
                proof {
                    lemma_call_index(before, entry@.id.unwrap(), 0);
                }
                let merged = merge_call(&self.details.tool_calls[index], entry);
                self.details.tool_calls[index] = merged;
                assert(self@.details.tool_calls =~= before.update(index as int, merged@));
            },
            None => {
                push_bounded(&mut self.details.tool_calls, entry);
                assert(self@.details.tool_calls =~= pushed_bounded(before, entry@));
            },
        }
        self.status.updated_at = now;
        assert(self@ =~= old(self)@.with_tool_call(given, created, now));
    }

    /// The status.
    pub fn status(&self) -> (r: WorkerStatus)
        ensures
            r@ == self@.status,
    {
        self.status.clone()
    }

    /// One page of the content.
    pub fn page(
        &self,
        process_id: ProcessId,
        section: WorkSection,
        cursor: Option<&str>,
        limit: u32,
    ) -> (r: Result<WorkPage, String>)
        ensures
            pages::page_result_view(r) == pages::page_result(
                self@.details,
                process_id,
                section,
                text::opt_str(cursor),
                limit,
            ),
    {
        self.details.page(process_id, section, cursor, limit)
    }
}

/// The position of the first record with an identifier.
fn find_call(calls: &Vec<ToolCallRecord>, id: &String) -> (r: Option<usize>)
    ensures
        ({
            let views = Seq::new(calls@.len(), |i: int| calls@[i]@);
            match r {
                Some(index) => index < calls@.len() && call_index(views, id@, 0) == Some(
                    index as int,
                ),
                None => call_index(views, id@, 0) is None,
            }
        }),
{
    let ghost views = Seq::new(calls@.len(), |i: int| calls@[i]@);
    let mut i: usize = 0;
    while i < calls.len()
        invariant
            i <= calls@.len(),
            views == Seq::new(calls@.len(), |i: int| calls@[i]@),
            call_index(views, id@, 0) == call_index(views, id@, i as int),
        decreases calls@.len() - i,
    {
        assert(views[i as int] == calls@[i as int]@);
        if let Some(existing) = &calls[i].id {
            if *existing == *id {
                return Some(i);
            }
        }
        i = i + 1;
    }
    None
}

/// Merges a later event into a record.
fn merge_call(existing: &ToolCallRecord, call: ToolCallRecord) -> (r: ToolCallRecord)
    ensures
        r@ == merged_call(existing@, call@),
{
    let input = if text::is_empty(existing.input.as_str()) {
        call.input
    } else {
        existing.input.clone()
    };
    let output = match call.output {
        Some(output) => Some(output),
        None => text::clone_optional(&existing.output),
    };
    ToolCallRecord {
        id: text::clone_optional(&existing.id),
        name: call.name,
        input,
        output,
        status: call.status,
        created_at: match existing.created_at {
            Some(time) => Some(time),
            None => call.created_at,
        },
    }
}

/// The handle through which a program reports the state of its worker.
#[derive(Debug, PartialEq, Eq)]
pub struct SupervisorReporter {
    state: ReporterState,
}

impl View for SupervisorReporter {
    type V = ReporterView;

    closed spec fn view(&self) -> ReporterView {
        self.state@
    }
}

impl SupervisorReporter {
    /// A handle with nothing reported.
    pub fn new() -> (r: Self)
        ensures
            r@ == ReporterView::initial(),
            r@.well_formed(),
    {
        SupervisorReporter { state: ReporterState::new() }
    }

    /// Replaces the status.
    pub fn update_status(&mut self, status: WorkerStatus)
        ensures
            final(self)@ == old(self)@.with_status(status@),
            old(self)@.well_formed() ==> final(self)@.well_formed(),
    {
        self.state.update_status(status);
    }

    /// Sets the thread that the worker serves.
    pub fn set_thread_id(&mut self, thread_id: Option<String>)
        ensures
            exists|now: i64| final(self)@ == #[trigger] old(self)@.with_thread_id(text::opt_text(thread_id), now),
            old(self)@.well_formed() ==> final(self)@.well_formed(),
    {
        let now: i64 = clock::unix_seconds();
        self.state.set_thread_id(thread_id, now);
        assert(self@ == old(self)@.with_thread_id(text::opt_text(thread_id), now));
    }

    /// Sets what the worker is doing and clears an error.
    pub fn set_activity(
        &mut self,
        activity: ActivityStatus,
        mode: ProcessMode,
        summary: Option<String>,
    )
        ensures
            exists|now: i64| final(self)@ == #[trigger] old(self)@.with_activity(
                activity,
                mode,
                text::opt_text(summary),
                now,
            ),
            old(self)@.well_formed() ==> final(self)@.well_formed(),
    {
        let now: i64 = clock::unix_seconds();
        self.state.set_activity(activity, mode, summary, now);
        assert(self@ == old(self)@.with_activity(activity, mode, text::opt_text(summary), now));
    }

    /// Reports an error.
    pub fn set_error(&mut self, error: String)
        ensures
            exists|now: i64| final(self)@ == #[trigger] old(self)@.with_error(error@, now),
            old(self)@.well_formed() ==> final(self)@.well_formed(),
    {
        let now: i64 = clock::unix_seconds();
        self.state.set_error(error, now);
        assert(self@ == old(self)@.with_error(error@, now));
    }

    /// Sets the prompt.
    pub fn set_prompt(&mut self, prompt: String)
        ensures
            exists|now: i64| final(self)@ == #[trigger] old(self)@.with_prompt(prompt@, now),
            old(self)@.well_formed() ==> final(self)@.well_formed(),
    {
        let now: i64 = clock::unix_seconds();
        self.state.set_prompt(prompt, now);
        assert(self@ == old(self)@.with_prompt(prompt@, now));
    }

    /// Sets the text of the plan.
    pub fn set_plan_text(&mut self, plan_text: String)
        ensures
            exists|now: i64| final(self)@ == #[trigger] old(self)@.with_plan_text(plan_text@, now),
            old(self)@.well_formed() ==> final(self)@.well_formed(),
    {
        let now: i64 = clock::unix_seconds();
        self.state.set_plan_text(plan_text, now);
        assert(self@ == old(self)@.with_plan_text(plan_text@, now));
    }

    /// Adds a piece to the text of the plan.
    pub fn append_plan_delta(&mut self, delta: String)
        ensures
            exists|now: i64| final(self)@ == #[trigger] old(self)@.with_plan_delta(delta@, now),
            old(self)@.well_formed() ==> final(self)@.well_formed(),
    {
        let now: i64 = clock::unix_seconds();
        self.state.append_plan_delta(delta, now);
        assert(self@ == old(self)@.with_plan_delta(delta@, now));
    }

    /// Sets the checklist.
    pub fn set_plan(&mut self, plan: Vec<PlanStep>)
        ensures
            exists|now: i64| final(self)@ == #[trigger] old(self)@.with_plan(
                types::plan_views(plan@),
                now,
            ),
            old(self)@.well_formed() ==> final(self)@.well_formed(),
    {
        let now: i64 = clock::unix_seconds();
        self.state.set_plan(plan, now);
        assert(self@ == old(self)@.with_plan(types::plan_views(plan@), now));
    }

    /// Adds a message.
    pub fn append_message(&mut self, message: WorkMessage)
        ensures
            exists|created: i64, now: i64|
                final(self)@ == #[trigger] old(self)@.with_message(message@, created, now),
            old(self)@.well_formed() ==> final(self)@.well_formed(),
    {
        let created: i64 = clock::unix_seconds();
        let now: i64 = clock::unix_seconds();
        self.state.append_message(message, created, now);
        assert(self@ == old(self)@.with_message(message@, created, now));
    }

    /// Records an event of a tool call.
    pub fn upsert_tool_call(&mut self, call: ToolCallRecord)
        ensures
            exists|created: i64, now: i64|
                final(self)@ == #[trigger] old(self)@.with_tool_call(call@, created, now),
            old(self)@.well_formed() ==> final(self)@.well_formed(),
    {
        let created: i64 = clock::unix_seconds();
        let now: i64 = clock::unix_seconds();
        self.state.upsert_tool_call(call, created, now);
        assert(self@ == old(self)@.with_tool_call(call@, created, now));
    }

    /// Records a tool call, with or without an identifier.
    pub fn append_tool_call(&mut self, call: ToolCallRecord)
        ensures
            exists|created: i64, now: i64|
                final(self)@ == #[trigger] old(self)@.with_tool_call(call@, created, now),
            old(self)@.well_formed() ==> final(self)@.well_formed(),
    {
        self.upsert_tool_call(call);
    }

    /// The status.
    pub fn status(&self) -> (r: WorkerStatus)
        ensures
            r@ == self@.status,
    {
        self.state.status()
    }

    /// One page of the content.
    pub fn page(
        &self,
        process_id: ProcessId,
        section: WorkSection,
        cursor: Option<&str>,
        limit: u32,
    ) -> (r: Result<WorkPage, String>)
        ensures
            pages::page_result_view(r) == pages::page_result(
                self@.details,
                process_id,
                section,
                text::opt_str(cursor),
                limit,
            ),
    {
        self.state.page(process_id, section, cursor, limit)
    }
}

/// A text of at most 65536 bytes is kept as it is. Of a longer one the longest beginning of that size
/// is kept, with a marker behind it.
pub proof fn law_short_text_is_kept_whole(s: Seq<char>)
    ensures
        text::byte_len(s) <= 65536 ==> bounded(s) == s,
        text::byte_len(s) > 65536 ==> exists|k: int|
            0 <= k < s.len() && bounded(s) == #[trigger] s.take(k) + "\n[content truncated]"@
                && text::byte_len(s.take(k)) <= 65536 && text::byte_len(s.take(k + 1)) > 65536,
        bounded_optional(None) is None,
        bounded_optional(Some(s)) == Some(bounded(s)),
{
    text::law_cut_keeps_what_fits(s, 65536, "\n[content truncated]"@);
    if text::byte_len(s) > 65536 {
        let k = choose|k: int|
            0 <= k < s.len() && text::truncated(s, 65536, "\n[content truncated]"@)
                == #[trigger] s.take(k) + "\n[content truncated]"@ && text::byte_len(s.take(k))
                <= 65536 && text::byte_len(s.take(k + 1)) > 65536;
        assert(bounded(s) == s.take(k) + "\n[content truncated]"@);
    }
}

/// A list ends with its newest item and holds at most 256. One that is full loses its oldest item, and
/// no other one.
pub proof fn law_full_list_loses_its_oldest_item<T>(items: Seq<T>, item: T)
    requires
        items.len() <= 256,
    ensures
        pushed_bounded(items, item).len() <= 256,
        pushed_bounded(items, item).last() == item,
        items.len() < 256 ==> pushed_bounded(items, item) == items.push(item),
        items.len() == 256 ==> pushed_bounded(items, item).len() == 256 && forall|i: int|
            0 <= i < 255 ==> (#[trigger] pushed_bounded(items, item)[i]) == items[i + 1],
{
}

/// A status that is reported as a whole is the status, each text as it is kept. The content stays.
pub proof fn law_reported_status_is_the_status(state: ReporterView, status: WorkerStatusView)
    ensures
        ({
            let after = state.after(Report::Status(status));
            &&& after.status.activity == status.activity
            &&& after.status.mode == status.mode
            &&& after.status.updated_at == status.updated_at
            &&& after.status.thread_id == bounded_optional(status.thread_id)
            &&& after.status.summary == bounded_optional(status.summary)
            &&& after.status.error == bounded_optional(status.error)
            &&& after.details == state.details
        }),
{
}

/// A thread that is reported is the thread of the worker. Nothing else changes but the time.
pub proof fn law_reported_thread_is_the_thread(
    state: ReporterView,
    thread_id: Option<Seq<char>>,
    now: i64,
)
    ensures
        ({
            let after = state.after(Report::ThreadId { thread_id, now });
            &&& after.status.thread_id == bounded_optional(thread_id)
            &&& after.status.updated_at == now
            &&& after.status.activity == state.status.activity
            &&& after.status.mode == state.status.mode
            &&& after.status.summary == state.status.summary
            &&& after.status.error == state.status.error
            &&& after.details == state.details
        }),
{
}

/// An activity that is reported is what the worker does, in its mode and with its summary, and ends an
/// error. The thread and the content stay.
pub proof fn law_reported_activity_ends_an_error(
    state: ReporterView,
    activity: ActivityStatus,
    mode: ProcessMode,
    summary: Option<Seq<char>>,
    now: i64,
)
    ensures
        ({
            let after = state.after(Report::Activity { activity, mode, summary, now });
            &&& after.status.activity == activity
            &&& after.status.mode == mode
            &&& after.status.summary == bounded_optional(summary)
            &&& after.status.error is None
            &&& after.status.updated_at == now
            &&& after.status.thread_id == state.status.thread_id
            &&& after.details == state.details
        }),
{
}

/// An error that is reported is the error and the summary of a worker that is in error. The mode, the
/// thread and the content stay.
pub proof fn law_reported_error_is_the_summary(state: ReporterView, error: Seq<char>, now: i64)
    ensures
        ({
            let after = state.after(Report::Error { error, now });
            &&& after.status.activity == ActivityStatus::Error
            &&& after.status.error == Some(bounded(error))
            &&& after.status.summary == Some(bounded(error))
            &&& after.status.updated_at == now
            &&& after.status.mode == state.status.mode
            &&& after.status.thread_id == state.status.thread_id
            &&& after.details == state.details
        }),
{
}

/// Whether two states differ in their content and the time of the last report at most.
pub open spec fn same_activity(a: ReporterView, b: ReporterView) -> bool {
    &&& a.status.activity == b.status.activity
    &&& a.status.mode == b.status.mode
    &&& a.status.summary == b.status.summary
    &&& a.status.error == b.status.error
    &&& a.status.thread_id == b.status.thread_id
}

/// A prompt, a plan text or a checklist that is reported takes the place of the one before. A piece of
/// plan text is added to it. No other content changes, and what the worker does stays.
pub proof fn law_reported_content_takes_its_place(
    state: ReporterView,
    told: Seq<char>,
    plan: Seq<PlanStepView>,
    now: i64,
)
    requires
        plan.len() <= 256,
    ensures
        ({
            let after = state.after(Report::Prompt { prompt: told, now });
            &&& after.details.prompt == Some(bounded(told))
            &&& after.details.plan_text == state.details.plan_text
            &&& after.details.plan == state.details.plan
            &&& after.details.messages == state.details.messages
            &&& after.details.tool_calls == state.details.tool_calls
            &&& after.status.updated_at == now
            &&& same_activity(state, after)
        }),
        ({
            let after = state.after(Report::PlanText { plan_text: told, now });
            &&& after.details.plan_text == Some(bounded(told))
            &&& after.details.prompt == state.details.prompt
            &&& after.details.plan == state.details.plan
            &&& after.details.messages == state.details.messages
            &&& after.details.tool_calls == state.details.tool_calls
            &&& after.status.updated_at == now
            &&& same_activity(state, after)
        }),
        ({
            let after = state.after(Report::PlanDelta { delta: told, now });
            &&& told.len() == 0 ==> after == state
            &&& told.len() > 0 ==> after.status.updated_at == now
            &&& told.len() > 0 && state.details.plan_text is Some ==> after.details.plan_text
                == Some(bounded(state.details.plan_text.unwrap() + told))
            &&& after.details.prompt == state.details.prompt
            &&& after.details.plan == state.details.plan
            &&& after.details.messages == state.details.messages
            &&& after.details.tool_calls == state.details.tool_calls
            &&& same_activity(state, after)
        }),
        ({
            let after = state.after(Report::Plan { plan, now });
            &&& after.details.plan.len() == plan.len()
            &&& forall|i: int|
                0 <= i < plan.len() ==> (#[trigger] after.details.plan[i]).step == bounded(
                    plan[i].step,
                ) && after.details.plan[i].status == bounded(plan[i].status)
            &&& after.details.prompt == state.details.prompt
            &&& after.details.plan_text == state.details.plan_text
            &&& after.details.messages == state.details.messages
            &&& after.details.tool_calls == state.details.tool_calls
            &&& after.status.updated_at == now
            &&& same_activity(state, after)
        }),
{
}

/// Of a longer checklist the first 256 steps are kept.
pub proof fn law_long_checklist_keeps_its_first_steps(
    state: ReporterView,
    plan: Seq<PlanStepView>,
    now: i64,
)
    requires
        plan.len() > 256,
    ensures
        state.after(Report::Plan { plan, now }) == state.after(
            Report::Plan { plan: plan.take(256), now },
        ),
{
    assert(state.after(Report::Plan { plan, now }).details.plan =~= state.after(
        Report::Plan { plan: plan.take(256), now },
    ).details.plan);
}

/// A message that is reported is the newest one, with its own time or else the time of the report. No
/// other content changes, and what the worker does stays.
pub proof fn law_reported_message_is_the_newest(
    state: ReporterView,
    message: WorkMessageView,
    created: i64,
    now: i64,
)
    ensures
        ({
            let after = state.after(Report::Message { message, created, now });
            let newest = after.details.messages.last();
            &&& newest.role == bounded(message.role)
            &&& newest.content == bounded(message.content)
            &&& message.created_at is Some ==> newest.created_at == message.created_at
            &&& message.created_at is None ==> newest.created_at == Some(created)
            &&& after.details.messages == pushed_bounded(state.details.messages, newest)
            &&& after.details.prompt == state.details.prompt
            &&& after.details.plan_text == state.details.plan_text
            &&& after.details.plan == state.details.plan
            &&& after.details.tool_calls == state.details.tool_calls
            &&& after.status.updated_at == now
            &&& same_activity(state, after)
        }),
{
}

/// A tool call without an identifier, or with one that is not known yet, is a record of its own. No
/// other content changes, and what the worker does stays.
pub proof fn law_new_tool_call_is_a_record_of_its_own(
    state: ReporterView,
    call: ToolCallRecordView,
    created: i64,
    now: i64,
)
    requires
        call.id matches Some(id) ==> forall|i: int|
            0 <= i < state.details.tool_calls.len() ==> (#[trigger] state.details.tool_calls[i]).id
                != Some(id),
    ensures
        ({
            let after = state.after(Report::ToolCall { call, created, now });
            let newest = after.details.tool_calls.last();
            &&& newest.id == call.id
            &&& newest.name == bounded(call.name)
            &&& newest.input == bounded(call.input)
            &&& newest.output == bounded_optional(call.output)
            &&& newest.status == bounded(call.status)
            &&& call.created_at is Some ==> newest.created_at == call.created_at
            &&& call.created_at is None ==> newest.created_at == Some(created)
            &&& after.details.tool_calls == pushed_bounded(state.details.tool_calls, newest)
            &&& after.details.prompt == state.details.prompt
            &&& after.details.plan_text == state.details.plan_text
            &&& after.details.plan == state.details.plan
            &&& after.details.messages == state.details.messages
            &&& after.status.updated_at == now
            &&& same_activity(state, after)
        }),
{
    if let Some(id) = call.id {
        lemma_call_index(state.details.tool_calls, id, 0);
    }
}

/// A later event of a known tool call is merged into its record and into no other one: the name and
/// the status are new, an output is new where the event has one, and an input and a time stay.
pub proof fn law_later_event_updates_its_record(
    state: ReporterView,
    call: ToolCallRecordView,
    at: int,
    created: i64,
    now: i64,
)
    requires
        0 <= at < state.details.tool_calls.len(),
        call.id is Some,
        state.details.tool_calls[at].id == call.id,
        forall|i: int|
            0 <= i < at ==> (#[trigger] state.details.tool_calls[i]).id != call.id,
    ensures
        ({
            let before = state.details.tool_calls[at];
            let after = state.after(Report::ToolCall { call, created, now });
            let record = after.details.tool_calls[at];
            &&& after.details.tool_calls.len() == state.details.tool_calls.len()
            &&& forall|i: int|
                0 <= i < after.details.tool_calls.len() && i != at ==> (
                #[trigger] after.details.tool_calls[i]) == state.details.tool_calls[i]
            &&& record.id == call.id
            &&& record.name == bounded(call.name)
            &&& record.status == bounded(call.status)
            &&& call.output is Some ==> record.output == bounded_optional(call.output)
            &&& call.output is None ==> record.output == before.output
            &&& before.input.len() > 0 ==> record.input == before.input
            &&& before.input.len() == 0 ==> record.input == bounded(call.input)
            &&& before.created_at is Some ==> record.created_at == before.created_at
            &&& after.details.messages == state.details.messages
            &&& after.details.prompt == state.details.prompt
            &&& same_activity(state, after)
        }),
{
    let id = call.id.unwrap();
    lemma_first_call(state.details.tool_calls, id, at, 0);
}

proof fn lemma_first_call(calls: Seq<ToolCallRecordView>, id: Seq<char>, at: int, from: int)
    requires
        0 <= from <= at < calls.len(),
        calls[at].id == Some(id),
        forall|i: int| 0 <= i < at ==> (#[trigger] calls[i]).id != Some(id),
    ensures
        call_index(calls, id, from) == Some(at),
    decreases at - from,
{
    if from < at {
        assert(calls[from].id != Some(id));
        lemma_first_call(calls, id, at, from + 1);
    }
}

/// Before anything is reported the worker is idle in the default mode and has no content.
pub proof fn law_nothing_is_reported_at_first()
    ensures
        ReporterView::initial().status.activity == ActivityStatus::Idle,
        ReporterView::initial().status.mode == ProcessMode::Default,
        ReporterView::initial().status.thread_id is None,
        ReporterView::initial().status.summary is None,
        ReporterView::initial().status.error is None,
        ReporterView::initial().details.prompt is None,
        ReporterView::initial().details.plan_text is None,
        ReporterView::initial().details.plan.len() == 0,
        ReporterView::initial().details.messages.len() == 0,
        ReporterView::initial().details.tool_calls.len() == 0,
{
}

} // verus!
