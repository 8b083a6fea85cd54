//! The process dashboard: lists to choose from, made of what the supervisor reports.
use crate::ids::ProcessId;
use crate::types::{
    ActivityStatus, ProcessKind, ProcessMode, ProcessRecord, ProcessRecordView, ProcessStatus,
    SupervisorSnapshot, SupervisorSnapshotView, WorkItem, WorkItemView, WorkPage, WorkPageView,
    WorkSection,
};
use crate::{ids, text};
use vstd::prelude::*;

verus! {

/// The identity of the dashboard's lists: a new list takes the place of the one that is shown.
pub const VIEW_ID: &'static str = "supervisor-dashboard";

/// The number of items that a page of work is asked for.
pub const WORK_PAGE_LIMIT: u32 = 20;

/// The most bytes of content that an entry shows.
pub const MAX_DISPLAY_BYTES: usize = 8192;

/// What choosing an entry asks for.
#[derive(Debug, PartialEq, Eq)]
pub enum DashboardEvent {
    Refresh,
    OpenDashboard,
    OpenDetails(ProcessId),
    Terminate(ProcessId),
    ReadWork { id: ProcessId, section: WorkSection, cursor: Option<String> },
}

/// The view of [`DashboardEvent`].
#[verifier::ext_equal]
pub enum DashboardEventView {
    Refresh,
    OpenDashboard,
    OpenDetails(ProcessId),
    Terminate(ProcessId),
    ReadWork { id: ProcessId, section: WorkSection, cursor: Option<Seq<char>> },
}

impl View for DashboardEvent {
    type V = DashboardEventView;

    open spec fn view(&self) -> DashboardEventView {
        match self {
            DashboardEvent::Refresh => DashboardEventView::Refresh,
            DashboardEvent::OpenDashboard => DashboardEventView::OpenDashboard,
            DashboardEvent::OpenDetails(id) => DashboardEventView::OpenDetails(*id),
            DashboardEvent::Terminate(id) => DashboardEventView::Terminate(*id),
            DashboardEvent::ReadWork { id, section, cursor } => DashboardEventView::ReadWork {
                id: *id,
                section: *section,
                cursor: text::opt_text(*cursor),
            },
        }
    }
}

/// An entry of a list.
#[derive(Debug, PartialEq, Eq)]
pub struct SelectionItem {
    pub name: String,
    pub description: Option<String>,
    /// Whether the entry is marked as the current one.
    pub is_current: bool,
    /// Whether the entry cannot be chosen.
    pub is_disabled: bool,
    /// What choosing the entry asks for.
    pub action: Option<DashboardEvent>,
    /// Whether choosing the entry closes the list.
    pub dismiss_on_select: bool,
    /// The text by which the entry is found, where it is another one than its name.
    pub search_value: Option<String>,
}

/// The view of [`SelectionItem`].
#[verifier::ext_equal]
pub struct SelectionItemView {
    pub name: Seq<char>,
    pub description: Option<Seq<char>>,
    pub is_current: bool,
    pub is_disabled: bool,
    pub action: Option<DashboardEventView>,
    pub dismiss_on_select: bool,
    pub search_value: Option<Seq<char>>,
}

impl View for SelectionItem {
    type V = SelectionItemView;

    open spec fn view(&self) -> SelectionItemView {
        SelectionItemView {
            name: self.name@,
            description: text::opt_text(self.description),
            is_current: self.is_current,
            is_disabled: self.is_disabled,
            action: match self.action {
                Some(action) => Some(action@),
                None => None,
            },
            dismiss_on_select: self.dismiss_on_select,
            search_value: text::opt_text(self.search_value),
        }
    }
}

/// The views of some entries.
pub open spec fn selection_views(items: Seq<SelectionItem>) -> Seq<SelectionItemView> {
    Seq::new(items.len(), |i: int| items[i]@)
}

/// A list to choose from.
#[derive(Debug, PartialEq, Eq)]
pub struct SelectionViewParams {
    /// The identity of the list, by which it replaces another.
    pub view_id: Option<&'static str>,
    pub title: String,
    pub subtitle: String,
    pub items: Vec<SelectionItem>,
}

/// The view of [`SelectionViewParams`].
#[verifier::ext_equal]
pub struct SelectionList {
    pub view_id: Option<Seq<char>>,
    pub title: Seq<char>,
    pub subtitle: Seq<char>,
    pub items: Seq<SelectionItemView>,
}

impl View for SelectionViewParams {
    type V = SelectionList;

    open spec fn view(&self) -> SelectionList {
        SelectionList {
            view_id: text::opt_str(self.view_id),
            title: self.title@,
            subtitle: self.subtitle@,
            items: selection_views(self.items@),
        }
    }
}

/// The name of a kind of process.
pub open spec fn kind_text(value: ProcessKind) -> Seq<char> {
    match value {
        ProcessKind::Tui => "TUI"@,
        ProcessKind::Cli => "CLI"@,
    }
}

fn kind_label(value: ProcessKind) -> (r: &'static str)
    ensures
        r@ == kind_text(value),
{
    match value {
        ProcessKind::Tui => "TUI",
        ProcessKind::Cli => "CLI",
    }
}

/// The name of a status.
pub open spec fn status_text(value: ProcessStatus) -> Seq<char> {
    match value {
        ProcessStatus::Starting => "starting"@,
        ProcessStatus::Running => "running"@,
        ProcessStatus::Stopping => "stopping"@,
        ProcessStatus::Exited => "exited"@,
        ProcessStatus::Unresponsive => "unresponsive"@,
    }
}

fn status_label(value: ProcessStatus) -> (r: &'static str)
    ensures
        r@ == status_text(value),
{
    match value {
        ProcessStatus::Starting => "starting",
        ProcessStatus::Running => "running",
        ProcessStatus::Stopping => "stopping",
        ProcessStatus::Exited => "exited",
        ProcessStatus::Unresponsive => "unresponsive",
    }
}

/// The name of an activity.
pub open spec fn activity_text(value: ActivityStatus) -> Seq<char> {
    match value {
        ActivityStatus::Idle => "idle"@,
        ActivityStatus::Thinking => "thinking"@,
        ActivityStatus::ExecutingTool => "executingTool"@,
        ActivityStatus::WaitingForUserInput => "waitingForUserInput"@,
        ActivityStatus::WaitingForApproval => "waitingForApproval"@,
        ActivityStatus::Error => "error"@,
    }
}

fn activity_label(value: ActivityStatus) -> (r: &'static str)
    ensures
        r@ == activity_text(value),
{
    match value {
        ActivityStatus::Idle => "idle",
        ActivityStatus::Thinking => "thinking",
        ActivityStatus::ExecutingTool => "executingTool",
        ActivityStatus::WaitingForUserInput => "waitingForUserInput",
        ActivityStatus::WaitingForApproval => "waitingForApproval",
        ActivityStatus::Error => "error",
    }
}

/// The name of a mode.
pub open spec fn mode_text(value: ProcessMode) -> Seq<char> {
    match value {
        ProcessMode::Default => "default"@,
        ProcessMode::Plan => "plan"@,
        ProcessMode::Review => "review"@,
        ProcessMode::Mixed => "mixed"@,
    }
}

fn mode_label(value: ProcessMode) -> (r: &'static str)
    ensures
        r@ == mode_text(value),
{
    match value {
        ProcessMode::Default => "default",
        ProcessMode::Plan => "plan",
        ProcessMode::Review => "review",
        ProcessMode::Mixed => "mixed",
    }
}

/// The name of a section.
pub open spec fn section_text(value: WorkSection) -> Seq<char> {
    match value {
        WorkSection::Prompt => "prompt"@,
        WorkSection::Plan => "plan"@,
        WorkSection::Messages => "messages"@,
        WorkSection::ToolCalls => "tool calls"@,
    }
}

fn section_label(value: WorkSection) -> (r: &'static str)
    ensures
        r@ == section_text(value),
{
    match value {
        WorkSection::Prompt => "prompt",
        WorkSection::Plan => "plan",
        WorkSection::Messages => "messages",
        WorkSection::ToolCalls => "tool calls",
    }
}

/// An entry that cannot be chosen.
pub open spec fn disabled_entry(name: Seq<char>, description: Option<Seq<char>>) -> SelectionItemView {
    SelectionItemView {
        name,
        description,
        is_current: false,
        is_disabled: true,
        action: None,
        dismiss_on_select: false,
        search_value: None,
    }
}

/// An entry that asks for something.
pub open spec fn action_entry(
    name: Seq<char>,
    description: Option<Seq<char>>,
    action: DashboardEventView,
    dismiss_on_select: bool,
) -> SelectionItemView {
    SelectionItemView {
        name,
        description,
        is_current: false,
        is_disabled: false,
        action: Some(action),
        dismiss_on_select,
        search_value: None,
    }
}

/// The entry that leads back to the list of processes.
pub open spec fn back_to_dashboard() -> SelectionItemView {
    action_entry("Back to process list"@, None, DashboardEventView::OpenDashboard, true)
}

/// The entry that leads back to a process.
pub open spec fn back_to_process(id: ProcessId) -> SelectionItemView {
    action_entry("Back to process details"@, None, DashboardEventView::OpenDetails(id), true)
}

fn disabled_item(name: &str, description: Option<String>) -> (r: SelectionItem)
    ensures
        r@ == disabled_entry(name@, text::opt_text(description)),
{
    SelectionItem {
        name: name.to_owned(),
        description,
        is_current: false,
        is_disabled: true,
        action: None,
        dismiss_on_select: false,
        search_value: None,
    }
}

fn action_item(
    name: &str,
    description: Option<String>,
    action: DashboardEvent,
    dismiss_on_select: bool,
) -> (r: SelectionItem)
    ensures
        r@ == action_entry(name@, text::opt_text(description), action@, dismiss_on_select),
{
    SelectionItem {
        name: name.to_owned(),
        description,
        is_current: false,
        is_disabled: false,
        action: Some(action),
        dismiss_on_select,
        search_value: None,
    }
}

fn back_to_dashboard_item() -> (r: SelectionItem)
    ensures
        r@ == back_to_dashboard(),
{
    action_item("Back to process list", None, DashboardEvent::OpenDashboard, true)
}

fn back_to_process_item(id: ProcessId) -> (r: SelectionItem)
    ensures
        r@ == back_to_process(id),
{
    action_item("Back to process details", None, DashboardEvent::OpenDetails(id), true)
}

fn list_of_one(title: String, subtitle: String, item: SelectionItem) -> (r: SelectionViewParams)
    ensures
        r@ == (SelectionList {
            view_id: Some(VIEW_ID@),
            title: title@,
            subtitle: subtitle@,
            items: seq![item@],
        }),
{
    let mut items: Vec<SelectionItem> = Vec::new();
    items.push(item);
    assert(selection_views(items@) =~= seq![item@]);
    SelectionViewParams { view_id: Some(VIEW_ID), title, subtitle, items }
}

fn list_with_way_back(title: &str, subtitle: &str, item: SelectionItem) -> (r: SelectionViewParams)
    ensures
        r@ == (SelectionList {
            view_id: Some(VIEW_ID@),
            title: title@,
            subtitle: subtitle@,
            items: seq![item@, back_to_dashboard()],
        }),
{
    let mut items: Vec<SelectionItem> = Vec::new();
    items.push(item);
    items.push(back_to_dashboard_item());
    assert(selection_views(items@) =~= seq![item@, back_to_dashboard()]);
    SelectionViewParams {
        view_id: Some(VIEW_ID),
        title: title.to_owned(),
        subtitle: subtitle.to_owned(),
        items,
    }
}

/// The list while the processes are loaded.
pub fn loading_params() -> (r: SelectionViewParams)
    ensures
        r@ == (SelectionList {
            view_id: Some(VIEW_ID@),
            title: "Codex process dashboard"@,
            subtitle: "Loading process state..."@,
            items: seq![disabled_entry("Loading..."@, None)],
        }),
{
    list_of_one(
        "Codex process dashboard".to_owned(),
        "Loading process state...".to_owned(),
        disabled_item("Loading...", None),
    )
}

/// The list where the supervisor could not be asked.
pub fn error_params(error: String) -> (r: SelectionViewParams)
    ensures
        r@ == (SelectionList {
            view_id: Some(VIEW_ID@),
            title: "Codex process dashboard"@,
            subtitle: "Supervisor is unavailable"@,
            items: seq![
                action_entry(
                    "Retry connection"@,
                    Some(error@),
                    DashboardEventView::Refresh,
                    false,
                ),
                back_to_dashboard(),
            ],
        }),
{
    list_with_way_back(
        "Codex process dashboard",
        "Supervisor is unavailable",
        action_item("Retry connection", Some(error), DashboardEvent::Refresh, false),
    )
}

/// The supervisor and the number of its processes.
pub open spec fn snapshot_summary(daemon_pid: u32, count: nat) -> Seq<char> {
    "Supervisor PID "@ + text::decimal(daemon_pid as nat) + " | "@ + text::decimal(count)
        + " registered process(es)"@
}

/// The text of an optional text, with a dash for none.
pub open spec fn or_dash(value: Option<Seq<char>>) -> Seq<char> {
    match value {
        Some(value) => value,
        None => "-"@,
    }
}

/// What is told of a process.
pub open spec fn description_of(record: ProcessRecordView) -> Seq<char> {
    "status: "@ + status_text(record.status) + " | activity: "@ + activity_text(record.activity)
        + " | mode: "@ + mode_text(record.mode) + " | summary: "@ + or_dash(record.summary)
        + " | error: "@ + or_dash(record.error) + " | cwd: "@ + record.cwd + " | thread: "@
        + or_dash(record.thread_id) + " | observed: "@ + text::signed_decimal(
        record.last_observed_at as int,
    )
}

/// The text by which a process is found.
pub open spec fn search_text(record: ProcessRecordView) -> Seq<char> {
    text::decimal(record.pid as nat) + " "@ + kind_text(record.kind) + " "@ + status_text(
        record.status,
    ) + " "@ + activity_text(record.activity) + " "@ + mode_text(record.mode) + " "@ + record.cwd
}

/// The entry of a process.
pub open spec fn process_entry(record: ProcessRecordView, current_pid: u32) -> SelectionItemView {
    SelectionItemView {
        name: kind_text(record.kind) + " PID "@ + text::decimal(record.pid as nat),
        description: Some(description_of(record)),
        is_current: record.pid == current_pid,
        is_disabled: false,
        action: Some(DashboardEventView::OpenDetails(record.id)),
        dismiss_on_select: true,
        search_value: Some(search_text(record)),
    }
}

/// The entries of some processes.
pub open spec fn process_entries(
    records: Seq<ProcessRecordView>,
    current_pid: u32,
) -> Seq<SelectionItemView> {
    Seq::new(records.len(), |i: int| process_entry(records[i], current_pid))
}

/// The list of processes.
pub open spec fn snapshot_list(snapshot: SupervisorSnapshotView, current_pid: u32) -> SelectionList {
    let summary = snapshot_summary(snapshot.daemon_pid, snapshot.processes.len());
    SelectionList {
        view_id: Some(VIEW_ID@),
        title: "Codex process dashboard"@,
        subtitle: summary,
        items: seq![
            action_entry(
                "Refresh process list"@,
                Some(summary),
                DashboardEventView::Refresh,
                false,
            ),
        ] + if snapshot.processes.len() == 0 {
            seq![
                disabled_entry(
                    "No Codex processes registered"@,
                    Some("The supervisor is running, but its registry is empty."@),
                ),
            ]
        } else {
            process_entries(snapshot.processes, current_pid)
        },
    }
}

fn dash_or(value: &Option<String>) -> (r: &str)
    ensures
        r@ == or_dash(text::opt_text(*value)),
{
    match value {
        Some(value) => value.as_str(),
        None => "-",
    }
}

fn process_description(record: &ProcessRecord) -> (r: String)
    ensures
        r@ == description_of(record@),
{
    "status: ".to_owned().concat(status_label(record.status)).concat(" | activity: ").concat(
        activity_label(record.activity),
    ).concat(" | mode: ").concat(mode_label(record.mode)).concat(" | summary: ").concat(
        dash_or(&record.summary),
    ).concat(" | error: ").concat(dash_or(&record.error)).concat(" | cwd: ").concat(
        record.cwd.as_str(),
    ).concat(" | thread: ").concat(dash_or(&record.thread_id)).concat(" | observed: ").concat(
        text::signed_text(record.last_observed_at).as_str(),
    )
}

fn process_item(record: &ProcessRecord, current_pid: u32) -> (r: SelectionItem)
    ensures
        r@ == process_entry(record@, current_pid),
{
    let pid = text::decimal_text(record.pid as u64);
    let search_value = text::decimal_text(record.pid as u64).concat(" ").concat(
        kind_label(record.kind),
    ).concat(" ").concat(status_label(record.status)).concat(" ").concat(
        activity_label(record.activity),
    ).concat(" ").concat(mode_label(record.mode)).concat(" ").concat(record.cwd.as_str());
    SelectionItem {
        name: kind_label(record.kind).to_owned().concat(" PID ").concat(pid.as_str()),
        description: Some(process_description(record)),
        is_current: record.pid == current_pid,
        is_disabled: false,
        action: Some(DashboardEvent::OpenDetails(record.id)),
        dismiss_on_select: true,
        search_value: Some(search_value),
    }
}

fn summary_text(daemon_pid: u32, count: usize) -> (r: String)
    ensures
        r@ == snapshot_summary(daemon_pid, count as nat),
{
    "Supervisor PID ".to_owned().concat(text::decimal_text(daemon_pid as u64).as_str()).concat(
        " | ",
    ).concat(text::decimal_usize(count).as_str()).concat(" registered process(es)")
}

/// Lists the processes. The process that shows the list is marked.
pub fn snapshot_params(snapshot: &SupervisorSnapshot, current_pid: u32) -> (r: SelectionViewParams)
    ensures
        r@ == snapshot_list(snapshot@, current_pid),
{
    let count: usize = snapshot.processes.len();
    let mut items: Vec<SelectionItem> = Vec::new();
    items.push(
        action_item(
            "Refresh process list",
            Some(summary_text(snapshot.daemon_pid, count)),
            DashboardEvent::Refresh,
            false,
        ),
    );
    let ghost first = items@[0]@;
    if count == 0 {
        items.push(
            disabled_item(
                "No Codex processes registered",
                Some("The supervisor is running, but its registry is empty.".to_owned()),
            ),
        );
    }
    let mut i: usize = 0;
    while i < count
        invariant
            i <= count == snapshot.processes@.len(),
            items@.len() == (if count == 0 {
                2
            } else {
                1 + i as int
            }),
            items@[0]@ == first,
            forall|j: int|
                0 <= j < i ==> (#[trigger] items@[j + 1])@ == process_entry(
                    snapshot.processes@[j]@,
                    current_pid,
                ),
            count == 0 ==> items@[1]@ == disabled_entry(
                "No Codex processes registered"@,
                Some("The supervisor is running, but its registry is empty."@),
            ),
        decreases count - i,
    {
        items.push(process_item(&snapshot.processes[i], current_pid));
        i = i + 1;
    }
    let ghost expected = snapshot_list(snapshot@, current_pid).items;
    assert forall|k: int| 0 <= k < items@.len() implies (#[trigger] items@[k])@ == expected[k] by {
        if k >= 1 && count > 0 {
            assert(items@[(k - 1) + 1]@ == process_entry(snapshot.processes@[k - 1]@, current_pid));
        }
    }
    assert(selection_views(items@) =~= expected);
    SelectionViewParams {
        view_id: Some(VIEW_ID),
        title: "Codex process dashboard".to_owned(),
        subtitle: summary_text(snapshot.daemon_pid, count),
        items,
    }
}

/// The first process with an identifier from `from` on.
pub open spec fn process_position(
    processes: Seq<ProcessRecordView>,
    id: ProcessId,
    from: int,
) -> Option<int>
    decreases processes.len() - from,
{
    if from >= processes.len() {
        None
    } else if processes[from].id == id {
        Some(from)
    } else {
        process_position(processes, id, from + 1)
    }
}

/// What is told where a process is not registered.
pub open spec fn not_found_told(id: ProcessId) -> Seq<char> {
    "supervisor process "@ + ids::id_text(id) + " was not found"@
}

/// Finds a process by its identifier.
pub fn find_process(snapshot: &SupervisorSnapshot, id: ProcessId) -> (r: Result<
    ProcessRecord,
    String,
>)
    ensures
        match process_position(snapshot@.processes, id, 0) {
            Some(index) => r is Ok && r->Ok_0@ == snapshot@.processes[index],
            None => r is Err && r->Err_0@ == not_found_told(id),
        },
{
    let mut i: usize = 0;
    while i < snapshot.processes.len()
        invariant
            i <= snapshot.processes@.len(),
            process_position(snapshot@.processes, id, 0) == process_position(
                snapshot@.processes,
                id,
                i as int,
            ),
        decreases snapshot.processes@.len() - i,
    {
        if snapshot.processes[i].id == id {
            return Ok(snapshot.processes[i].clone());
        }
        i = i + 1;
    }
    Err(
        "supervisor process ".to_owned().concat(ids::id_to_text(id).as_str()).concat(
            " was not found",
        ),
    )
}

/// The list while a process is loaded.
pub fn process_loading_params(id: ProcessId) -> (r: SelectionViewParams)
    ensures
        r@ == (SelectionList {
            view_id: Some(VIEW_ID@),
            title: "Codex process details"@,
            subtitle: "Loading process "@ + ids::id_text(id) + "..."@,
            items: seq![disabled_entry("Loading process state..."@, None)],
        }),
{
    list_of_one(
        "Codex process details".to_owned(),
        "Loading process ".to_owned().concat(ids::id_to_text(id).as_str()).concat("..."),
        disabled_item("Loading process state...", None),
    )
}

/// The list where a process could not be read.
pub fn process_error_params(error: String) -> (r: SelectionViewParams)
    ensures
        r@ == (SelectionList {
            view_id: Some(VIEW_ID@),
            title: "Codex process details"@,
            subtitle: "Unable to read process state"@,
            items: seq![
                disabled_entry("Process query failed"@, Some(error@)),
                back_to_dashboard(),
            ],
        }),
{
    list_with_way_back(
        "Codex process details",
        "Unable to read process state",
        disabled_item("Process query failed", Some(error)),
    )
}

/// Whether a process can be terminated from the dashboard: another process that has neither ended
/// nor begun to.
pub open spec fn can_terminate(record: ProcessRecordView, current_pid: u32) -> bool {
    record.pid != current_pid && record.status != ProcessStatus::Stopping && record.status
        != ProcessStatus::Exited
}

/// What is told about terminating a process.
pub open spec fn termination_told(record: ProcessRecordView, current_pid: u32) -> Seq<char> {
    if record.pid == current_pid {
        "The current Codex process cannot terminate itself."@
    } else if record.status == ProcessStatus::Stopping {
        "Termination is already in progress."@
    } else if record.status == ProcessStatus::Exited {
        "This process has already exited."@
    } else {
        "Supervisor will terminate this process and its child process group."@
    }
}

/// The entry that terminates a process.
pub open spec fn termination_entry(record: ProcessRecordView, current_pid: u32) -> SelectionItemView {
    let can = can_terminate(record, current_pid);
    SelectionItemView {
        name: if can {
            "Terminate process"@
        } else {
            "Process termination unavailable"@
        },
        description: Some(termination_told(record, current_pid)),
        is_current: false,
        is_disabled: !can,
        action: if can {
            Some(DashboardEventView::Terminate(record.id))
        } else {
            None
        },
        dismiss_on_select: can,
        search_value: None,
    }
}

/// The entry that reads a section.
pub open spec fn section_entry(id: ProcessId, section: WorkSection) -> SelectionItemView {
    action_entry(
        "Read "@ + section_text(section),
        Some("Open the paginated "@ + section_text(section) + " section for this process."@),
        DashboardEventView::ReadWork { id, section, cursor: None },
        true,
    )
}

/// The list of what can be done with a process.
pub open spec fn details_list(record: ProcessRecordView, current_pid: u32) -> SelectionList {
    SelectionList {
        view_id: Some(VIEW_ID@),
        title: kind_text(record.kind) + " process details"@,
        subtitle: "PID "@ + text::decimal(record.pid as nat) + " | "@ + description_of(record),
        items: seq![
            action_entry(
                "Refresh process state"@,
                None,
                DashboardEventView::OpenDetails(record.id),
                false,
            ),
            back_to_dashboard(),
            termination_entry(record, current_pid),
            section_entry(record.id, WorkSection::Prompt),
            section_entry(record.id, WorkSection::Plan),
            section_entry(record.id, WorkSection::Messages),
            section_entry(record.id, WorkSection::ToolCalls),
        ],
    }
}

fn termination_item(record: &ProcessRecord, current_pid: u32) -> (r: SelectionItem)
    ensures
        r@ == termination_entry(record@, current_pid),
{
    let is_current = record.pid == current_pid;
    let is_stopping = record.status == ProcessStatus::Stopping;
    let has_exited = record.status == ProcessStatus::Exited;
    let can = !is_current && !is_stopping && !has_exited;
    let description = if is_current {
        "The current Codex process cannot terminate itself."
    } else if is_stopping {
        "Termination is already in progress."
    } else if has_exited {
        "This process has already exited."
    } else {
        "Supervisor will terminate this process and its child process group."
    };
    SelectionItem {
        name: if can {
            "Terminate process".to_owned()
        } else {
            "Process termination unavailable".to_owned()
        },
        description: Some(description.to_owned()),
        is_current: false,
        is_disabled: !can,
        action: if can {
            Some(DashboardEvent::Terminate(record.id))
        } else {
            None
        },
        dismiss_on_select: can,
        search_value: None,
    }
}

fn section_item(id: ProcessId, section: WorkSection) -> (r: SelectionItem)
    ensures
        r@ == section_entry(id, section),
{
    let name = "Read ".to_owned().concat(section_label(section));
    let description = "Open the paginated ".to_owned().concat(section_label(section)).concat(
        " section for this process.",
    );
    action_item(
        name.as_str(),
        Some(description),
        DashboardEvent::ReadWork { id, section, cursor: None },
        true,
    )
}

/// Lists what can be done with a process.
pub fn process_details_params(record: &ProcessRecord, current_pid: u32) -> (r: SelectionViewParams)
    ensures
        r@ == details_list(record@, current_pid),
{
    let mut items: Vec<SelectionItem> = Vec::new();
    items.push(
        action_item(
            "Refresh process state",
            None,
            DashboardEvent::OpenDetails(record.id),
            false,
        ),
    );
    items.push(back_to_dashboard_item());
    items.push(termination_item(record, current_pid));
    items.push(section_item(record.id, WorkSection::Prompt));
    items.push(section_item(record.id, WorkSection::Plan));
    items.push(section_item(record.id, WorkSection::Messages));
    items.push(section_item(record.id, WorkSection::ToolCalls));
    assert(selection_views(items@) =~= details_list(record@, current_pid).items);
    SelectionViewParams {
        view_id: Some(VIEW_ID),
        title: kind_label(record.kind).to_owned().concat(" process details"),
        subtitle: details_subtitle(record),
        items,
    }
}

fn details_subtitle(record: &ProcessRecord) -> (r: String)
    ensures
        r@ == "PID "@ + text::decimal(record@.pid as nat) + " | "@ + description_of(record@),
{
    "PID ".to_owned().concat(text::decimal_text(record.pid as u64).as_str()).concat(" | ").concat(
        process_description(record).as_str(),
    )
}

/// The title of a page of work.
pub open spec fn work_title(id: ProcessId, section: WorkSection) -> Seq<char> {
    "Process "@ + ids::id_text(id) + ": "@ + section_text(section)
}

fn work_title_text(id: ProcessId, section: WorkSection) -> (r: String)
    ensures
        r@ == work_title(id, section),
{
    "Process ".to_owned().concat(ids::id_to_text(id).as_str()).concat(": ").concat(
        section_label(section),
    )
}

/// The list while a page of work is loaded.
pub fn work_loading_params(id: ProcessId, section: WorkSection) -> (r: SelectionViewParams)
    ensures
        r@ == (SelectionList {
            view_id: Some(VIEW_ID@),
            title: work_title(id, section),
            subtitle: "Loading work content..."@,
            items: seq![disabled_entry("Loading..."@, None)],
        }),
{
    list_of_one(
        work_title_text(id, section),
        "Loading work content...".to_owned(),
        disabled_item("Loading...", None),
    )
}

/// The list where a page of work could not be read.
pub fn work_error_params(error: String) -> (r: SelectionViewParams)
    ensures
        r@ == (SelectionList {
            view_id: Some(VIEW_ID@),
            title: "Codex process work"@,
            subtitle: "Unable to read work content"@,
            items: seq![disabled_entry("Work query failed"@, Some(error@)), back_to_dashboard()],
        }),
{
    list_with_way_back(
        "Codex process work",
        "Unable to read work content",
        disabled_item("Work query failed", Some(error)),
    )
}

/// A description at the start of a line.
pub open spec fn at_line_start(description: Seq<char>) -> Seq<char> {
    if description.len() > 0 && description.last() != '\n' {
        description.push('\n')
    } else {
        description
    }
}

/// A description with a field on a line of its own, if the field is there.
pub open spec fn with_field(
    description: Seq<char>,
    name: Seq<char>,
    value: Option<Seq<char>>,
) -> Seq<char> {
    match value {
        Some(value) => at_line_start(description) + name + ": "@ + value,
        None => description,
    }
}

/// A description with a content on a line of its own, if there is one.
pub open spec fn with_content(description: Seq<char>, content: Seq<char>) -> Seq<char> {
    if content.len() > 0 {
        at_line_start(description) + content
    } else {
        description
    }
}

/// What is told of an item of work.
pub open spec fn item_description(item: WorkItemView) -> Seq<char> {
    let identified = with_field(with_field(Seq::empty(), "id"@, item.id), "status"@, item.status);
    let filled = with_content(identified, item.content);
    with_field(
        with_field(with_field(filled, "input"@, item.input), "output"@, item.output),
        "created_at"@,
        match item.created_at {
            Some(created_at) => Some(text::signed_decimal(created_at as int)),
            None => None,
        },
    )
}

/// A text as far as an entry shows it.
pub open spec fn displayed(s: Seq<char>) -> Seq<char> {
    text::truncated(
        s,
        MAX_DISPLAY_BYTES as nat,
        "\n[content truncated for dashboard display]"@,
    )
}

/// The entry of an item of work.
pub open spec fn work_entry(item: WorkItemView) -> SelectionItemView {
    disabled_entry(
        "#"@ + text::decimal(item.index as nat) + " "@ + item.title,
        Some(displayed(item_description(item))),
    )
}

/// The entries of some items of work.
pub open spec fn work_entries(items: Seq<WorkItemView>) -> Seq<SelectionItemView> {
    Seq::new(items.len(), |i: int| work_entry(items[i]))
}

/// The entry of a plan text, if there is one.
pub open spec fn plan_entries(plan_text: Option<Seq<char>>) -> Seq<SelectionItemView> {
    match plan_text {
        Some(plan_text) => if plan_text.len() > 0 {
            seq![disabled_entry("Plan mode proposal"@, Some(displayed(plan_text)))]
        } else {
            Seq::empty()
        },
        None => Seq::empty(),
    }
}

/// The entry that reads on, if there is more.
pub open spec fn next_entries(page: WorkPageView) -> Seq<SelectionItemView> {
    match page.next_cursor {
        Some(cursor) => seq![
            action_entry(
                "Read next page"@,
                Some(
                    "Continue reading "@ + section_text(page.section) + " from cursor "@ + cursor
                        + "."@,
                ),
                DashboardEventView::ReadWork {
                    id: page.process_id,
                    section: page.section,
                    cursor: Some(cursor),
                },
                false,
            ),
        ],
        None => Seq::empty(),
    }
}

/// The entry of a page without items.
pub open spec fn empty_entries(page: WorkPageView) -> Seq<SelectionItemView> {
    if page.items.len() == 0 {
        seq![disabled_entry("No items in this section"@, None)]
    } else {
        Seq::empty()
    }
}

/// What is told of a page.
pub open spec fn page_subtitle(page: WorkPageView) -> Seq<char> {
    text::decimal(page.items.len()) + " item(s) in this page"@ + (match page.next_cursor {
        Some(cursor) => " | next cursor: "@ + cursor,
        None => ""@,
    })
}

/// The list of a page of work.
pub open spec fn page_list(page: WorkPageView) -> SelectionList {
    SelectionList {
        view_id: Some(VIEW_ID@),
        title: work_title(page.process_id, page.section),
        subtitle: page_subtitle(page),
        items: seq![back_to_process(page.process_id)] + plan_entries(page.plan_text)
            + work_entries(page.items) + next_entries(page) + empty_entries(page),
    }
}

fn start_line(description: String) -> (r: String)
    ensures
        r@ == at_line_start(description@),
{
    let chars = text::to_chars(description.as_str());
    let mut out = description;
    if chars.len() > 0 && chars[chars.len() - 1] != '\n' {
        out.push('\n');
    }
    out
}

fn append_work_field(description: String, name: &str, value: &Option<String>) -> (r: String)
    ensures
        r@ == with_field(description@, name@, text::opt_text(*value)),
{
    match value {
        Some(value) => start_line(description).concat(name).concat(": ").concat(value.as_str()),
        None => description,
    }
}

fn append_content(description: String, content: &str) -> (r: String)
    ensures
        r@ == with_content(description@, content@),
{
    if text::is_empty(content) {
        description
    } else {
        start_line(description).concat(content)
    }
}

/// Cuts a text to what an entry shows.
pub fn limit_display_text(value: &str) -> (r: String)
    ensures
        r@ == displayed(value@),
{
    text::truncate_text(value, MAX_DISPLAY_BYTES, "\n[content truncated for dashboard display]")
}

fn work_item(item: &WorkItem) -> (r: SelectionItem)
    ensures
        r@ == work_entry(item@),
{
    let created_at = match item.created_at {
        Some(created_at) => Some(text::signed_text(created_at)),
        None => None,
    };
    let description = String::new();
    assert(description@ =~= Seq::empty());
    let description = append_work_field(description, "id", &item.id);
    let description = append_work_field(description, "status", &item.status);
    let description = append_content(description, item.content.as_str());
    let description = append_work_field(description, "input", &item.input);
    let description = append_work_field(description, "output", &item.output);
    let description = append_work_field(description, "created_at", &created_at);
    let name = "#".to_owned().concat(text::decimal_usize(item.index).as_str()).concat(" ").concat(
        item.title.as_str(),
    );
    disabled_item(name.as_str(), Some(limit_display_text(description.as_str())))
}

fn push_work_items(items: &mut Vec<SelectionItem>, page: &WorkPage)
    ensures
        selection_views(final(items)@) == selection_views(old(items)@) + work_entries(page@.items),
{
    let mut i: usize = 0;
    let ghost before = selection_views(items@);
    let ghost entries = work_entries(page@.items);
    assert(before + entries.take(0) =~= before);
    while i < page.items.len()
        invariant
            i <= page.items@.len(),
            entries == work_entries(page@.items),
            selection_views(items@) == before + entries.take(i as int),
        decreases page.items@.len() - i,
    {
        let ghost so_far = items@;
        items.push(work_item(&page.items[i]));
        assert(selection_views(items@) =~= selection_views(so_far).push(entries[i as int]));
        assert(before + entries.take(i + 1) =~= (before + entries.take(i as int)).push(
            entries[i as int],
        ));
        i = i + 1;
    }
    assert(entries.take(entries.len() as int) =~= entries);
}

fn next_page_item(id: ProcessId, section: WorkSection, cursor: &String) -> (r: SelectionItem)
    ensures
        r@ == action_entry(
            "Read next page"@,
            Some("Continue reading "@ + section_text(section) + " from cursor "@ + cursor@ + "."@),
            DashboardEventView::ReadWork { id, section, cursor: Some(cursor@) },
            false,
        ),
{
    let description = "Continue reading ".to_owned().concat(section_label(section)).concat(
        " from cursor ",
    ).concat(cursor.as_str()).concat(".");
    action_item(
        "Read next page",
        Some(description),
        DashboardEvent::ReadWork { id, section, cursor: Some(cursor.clone()) },
        false,
    )
}

fn page_subtitle_text(page: &WorkPage) -> (r: String)
    ensures
        r@ == page_subtitle(page@),
{
    let count = text::decimal_usize(page.items.len()).concat(" item(s) in this page");
    match &page.next_cursor {
        Some(cursor) => {
            let r = count.concat(" | next cursor: ").concat(cursor.as_str());
            assert(r@ =~= page_subtitle(page@));
            r
        },
        None => count.concat(""),
    }
}

/// Lists a page of work.
pub fn work_page_params(page: &WorkPage) -> (r: SelectionViewParams)
    ensures
        r@ == page_list(page@),
{
    let mut items: Vec<SelectionItem> = Vec::new();
    items.push(back_to_process_item(page.process_id));
    let ghost head = seq![back_to_process(page.process_id)];
    assert(selection_views(items@) =~= head);
    if let Some(plan_text) = &page.plan_text {
        if !text::is_empty(plan_text.as_str()) {
            items.push(
                disabled_item(
                    "Plan mode proposal",
                    Some(limit_display_text(plan_text.as_str())),
                ),
            );
        }
    }
    assert(selection_views(items@) =~= head + plan_entries(page@.plan_text));
    push_work_items(&mut items, page);
    let ghost filled = items@;
    if let Some(cursor) = &page.next_cursor {
        items.push(next_page_item(page.process_id, page.section, cursor));
    }
    assert(selection_views(items@) =~= selection_views(filled) + next_entries(page@));
    let ghost continued = items@;
    if page.items.len() == 0 {
        items.push(disabled_item("No items in this section", None));
    }
    assert(selection_views(items@) =~= selection_views(continued) + empty_entries(page@));
    SelectionViewParams {
        view_id: Some(VIEW_ID),
        title: work_title_text(page.process_id, page.section),
        subtitle: page_subtitle_text(page),
        items,
    }
}

/// No entry for the process that shows the dashboard asks to terminate it.
pub proof fn law_current_process_is_not_terminated(record: ProcessRecordView, index: int)
    requires
        0 <= index < details_list(record, record.pid).items.len(),
    ensures
        !(details_list(record, record.pid).items[index].action matches Some(action)
            && action is Terminate),
{
}

/// An entry of a page that reads on does so from the page's cursor. No entry of a last page reads
/// on.
pub proof fn law_page_reads_on_from_its_cursor(page: WorkPageView, index: int)
    requires
        0 <= index < page_list(page).items.len(),
        page_list(page).items[index].action matches Some(action) && action is ReadWork,
    ensures
        page.next_cursor is Some,
        page_list(page).items[index].action == Some(
            DashboardEventView::ReadWork {
                id: page.process_id,
                section: page.section,
                cursor: page.next_cursor,
            },
        ),
{
    let head = seq![back_to_process(page.process_id)] + plan_entries(page.plan_text);
    let filled = head + work_entries(page.items);
    if index < filled.len() {
        assert(page_list(page).items[index] == filled[index]);
        if index >= head.len() {
            assert(filled[index] == work_entry(page.items[index - head.len()]));
        } else {
            assert(filled[index] == head[index]);
        }
    }
}

/// What an entry shows of a content is bounded, however long the content is.
pub proof fn law_displayed_content_is_bounded(content: Seq<char>)
    ensures
        text::byte_len(displayed(content)) <= MAX_DISPLAY_BYTES + text::byte_len(
            "\n[content truncated for dashboard display]"@,
        ),
{
    text::lemma_truncated_is_bounded(
        content,
        MAX_DISPLAY_BYTES as nat,
        "\n[content truncated for dashboard display]"@,
    );
}

/// Each status, activity, mode, kind and section has a name of its own.
pub proof fn law_states_have_their_names()
    ensures
        kind_text(ProcessKind::Tui) == "TUI"@,
        kind_text(ProcessKind::Cli) == "CLI"@,
        status_text(ProcessStatus::Starting) == "starting"@,
        status_text(ProcessStatus::Running) == "running"@,
        status_text(ProcessStatus::Stopping) == "stopping"@,
        status_text(ProcessStatus::Exited) == "exited"@,
        status_text(ProcessStatus::Unresponsive) == "unresponsive"@,
        activity_text(ActivityStatus::Idle) == "idle"@,
        activity_text(ActivityStatus::Thinking) == "thinking"@,
        activity_text(ActivityStatus::ExecutingTool) == "executingTool"@,
        activity_text(ActivityStatus::WaitingForUserInput) == "waitingForUserInput"@,
        activity_text(ActivityStatus::WaitingForApproval) == "waitingForApproval"@,
        activity_text(ActivityStatus::Error) == "error"@,
        mode_text(ProcessMode::Default) == "default"@,
        mode_text(ProcessMode::Plan) == "plan"@,
        mode_text(ProcessMode::Review) == "review"@,
        mode_text(ProcessMode::Mixed) == "mixed"@,
        section_text(WorkSection::Prompt) == "prompt"@,
        section_text(WorkSection::Plan) == "plan"@,
        section_text(WorkSection::Messages) == "messages"@,
        section_text(WorkSection::ToolCalls) == "tool calls"@,
{
}

/// What is told of a process names its status, its activity, its mode, its summary, its error, its
/// directory, its thread and when it was seen, each after its own label, with a dash for what it has not.
pub proof fn law_process_is_told_field_by_field(record: ProcessRecordView)
    ensures
        description_of(record) == "status: "@ + status_text(record.status) + " | activity: "@
            + activity_text(record.activity) + " | mode: "@ + mode_text(record.mode)
            + " | summary: "@ + (match record.summary {
            Some(summary) => summary,
            None => "-"@,
        }) + " | error: "@ + (match record.error {
            Some(error) => error,
            None => "-"@,
        }) + " | cwd: "@ + record.cwd + " | thread: "@ + (match record.thread_id {
            Some(thread_id) => thread_id,
            None => "-"@,
        }) + " | observed: "@ + text::signed_decimal(record.last_observed_at as int),
        search_text(record) == text::decimal(record.pid as nat) + " "@ + kind_text(record.kind)
            + " "@ + status_text(record.status) + " "@ + activity_text(record.activity) + " "@
            + mode_text(record.mode) + " "@ + record.cwd,
{
}

/// The list of processes starts with a refresh. Behind it each process of the snapshot has one entry, in
/// the order of the snapshot, which is named by its kind and its number, is marked if it shows the
/// dashboard, tells what the process does and opens its details. A list without processes says so and
/// offers nothing else.
pub proof fn law_list_shows_each_process(snapshot: SupervisorSnapshotView, current_pid: u32)
    ensures
        ({
            let list = snapshot_list(snapshot, current_pid);
            &&& list.items[0].action == Some(DashboardEventView::Refresh)
            &&& !list.items[0].is_disabled && !list.items[0].dismiss_on_select
            &&& list.subtitle == "Supervisor PID "@ + text::decimal(snapshot.daemon_pid as nat)
                + " | "@ + text::decimal(snapshot.processes.len()) + " registered process(es)"@
            &&& snapshot.processes.len() == 0 ==> list.items.len() == 2 && list.items[1].is_disabled
                && list.items[1].action is None
            &&& snapshot.processes.len() > 0 ==> list.items.len() == snapshot.processes.len() + 1
            &&& forall|i: int|
                0 <= i < snapshot.processes.len() ==> {
                    let record = #[trigger] snapshot.processes[i];
                    let item = list.items[i + 1];
                    &&& item.action == Some(DashboardEventView::OpenDetails(record.id))
                    &&& item.is_current == (record.pid == current_pid)
                    &&& !item.is_disabled && item.dismiss_on_select
                    &&& item.name == kind_text(record.kind) + " PID "@ + text::decimal(
                        record.pid as nat,
                    )
                    &&& item.description == Some(description_of(record))
                    &&& item.search_value == Some(search_text(record))
                }
        }),
{
}

/// The details of a process offer to refresh it, to go back, to terminate it and to read each of its
/// sections from the start, in this order. What they ask for is about that process alone.
pub proof fn law_details_offer_what_can_be_done(record: ProcessRecordView, current_pid: u32)
    ensures
        ({
            let list = details_list(record, current_pid);
            &&& list.items.len() == 7
            &&& list.title == kind_text(record.kind) + " process details"@
            &&& list.subtitle == "PID "@ + text::decimal(record.pid as nat) + " | "@
                + description_of(record)
            &&& list.items[0].action == Some(DashboardEventView::OpenDetails(record.id))
            &&& list.items[1].action == Some(DashboardEventView::OpenDashboard)
            &&& list.items[3].action == Some(
                DashboardEventView::ReadWork {
                    id: record.id,
                    section: WorkSection::Prompt,
                    cursor: None,
                },
            )
            &&& list.items[4].action == Some(
                DashboardEventView::ReadWork {
                    id: record.id,
                    section: WorkSection::Plan,
                    cursor: None,
                },
            )
            &&& list.items[5].action == Some(
                DashboardEventView::ReadWork {
                    id: record.id,
                    section: WorkSection::Messages,
                    cursor: None,
                },
            )
            &&& list.items[6].action == Some(
                DashboardEventView::ReadWork {
                    id: record.id,
                    section: WorkSection::ToolCalls,
                    cursor: None,
                },
            )
            &&& list.items[3].name == "Read prompt"@ && list.items[4].name == "Read plan"@
            &&& list.items[5].name == "Read messages"@ && list.items[6].name == "Read tool calls"@
            &&& forall|i: int|
                0 <= i < 7 && i != 2 ==> !(#[trigger] list.items[i]).is_disabled
        }),
{
    reveal_strlit("Read ");
    reveal_strlit("prompt");
    reveal_strlit("plan");
    reveal_strlit("messages");
    reveal_strlit("tool calls");
    reveal_strlit("Read prompt");
    reveal_strlit("Read plan");
    reveal_strlit("Read messages");
    reveal_strlit("Read tool calls");
    assert("Read "@ + "prompt"@ =~= "Read prompt"@);
    assert("Read "@ + "plan"@ =~= "Read plan"@);
    assert("Read "@ + "messages"@ =~= "Read messages"@);
    assert("Read "@ + "tool calls"@ =~= "Read tool calls"@);
}

/// A process is offered to be terminated exactly if it is another one than this, does not stop already
/// and has not exited. Else the entry cannot be chosen and says why.
pub proof fn law_living_other_process_can_be_terminated(
    record: ProcessRecordView,
    current_pid: u32,
)
    ensures
        ({
            let entry = details_list(record, current_pid).items[2];
            let can = record.pid != current_pid && (record.status == ProcessStatus::Starting
                || record.status == ProcessStatus::Running || record.status
                == ProcessStatus::Unresponsive);
            &&& can ==> entry.action == Some(DashboardEventView::Terminate(record.id))
                && !entry.is_disabled && entry.dismiss_on_select && entry.name
                == "Terminate process"@
            &&& !can ==> entry.action is None && entry.is_disabled && !entry.dismiss_on_select
                && entry.name == "Process termination unavailable"@
            &&& record.pid == current_pid ==> entry.description == Some(
                "The current Codex process cannot terminate itself."@,
            )
            &&& record.pid != current_pid && record.status == ProcessStatus::Stopping
                ==> entry.description == Some("Termination is already in progress."@)
            &&& record.pid != current_pid && record.status == ProcessStatus::Exited
                ==> entry.description == Some("This process has already exited."@)
            &&& can ==> entry.description == Some(
                "Supervisor will terminate this process and its child process group."@,
            )
        }),
{
}

/// The process that is found in a snapshot has the identifier that was asked for. Where none is found,
/// none has it.
pub proof fn law_found_process_is_the_one_asked_for(
    processes: Seq<ProcessRecordView>,
    id: ProcessId,
    from: int,
)
    requires
        0 <= from,
    ensures
        process_position(processes, id, from) matches Some(index) ==> from <= index
            < processes.len() && processes[index].id == id,
        process_position(processes, id, from) is None ==> forall|i: int|
            from <= i < processes.len() ==> (#[trigger] processes[i]).id != id,
    decreases processes.len() - from,
{
    if from < processes.len() && processes[from].id != id {
        law_found_process_is_the_one_asked_for(processes, id, from + 1);
    }
}

/// The list of a page leads back to its process. Behind the text of the plan, where there is one, each
/// item of the page has one entry, in order, with its number and its title; then the next page is
/// offered, where there is one. A page without items says so.
pub proof fn law_page_list_shows_each_item(page: WorkPageView)
    ensures
        ({
            let list = page_list(page);
            let shows_plan = page.plan_text is Some && page.plan_text.unwrap().len() > 0;
            let first: int = if shows_plan {
                2
            } else {
                1
            };
            &&& list.title == "Process "@ + ids::id_text(page.process_id) + ": "@ + section_text(
                page.section,
            )
            &&& list.items[0].action == Some(DashboardEventView::OpenDetails(page.process_id))
            &&& shows_plan ==> list.items[1].name == "Plan mode proposal"@
                && list.items[1].description == Some(displayed(page.plan_text.unwrap()))
                && list.items[1].is_disabled
            &&& forall|i: int|
                0 <= i < page.items.len() ==> {
                    let item = #[trigger] page.items[i];
                    let entry = list.items[first + i];
                    &&& entry.name == "#"@ + text::decimal(item.index as nat) + " "@ + item.title
                    &&& entry.description == Some(displayed(item_description(item)))
                    &&& entry.is_disabled && entry.action is None
                }
            &&& page.next_cursor matches Some(cursor) ==> {
                let entry = list.items[first + page.items.len()];
                &&& entry.name == "Read next page"@
                &&& entry.action == Some(
                    DashboardEventView::ReadWork {
                        id: page.process_id,
                        section: page.section,
                        cursor: Some(cursor),
                    },
                )
                &&& !entry.is_disabled && !entry.dismiss_on_select
            }
            &&& page.items.len() == 0 ==> list.items.last().name == "No items in this section"@
                && list.items.last().is_disabled
            &&& list.items.len() == first + page.items.len() + (if page.next_cursor is Some {
                1int
            } else {
                0
            }) + (if page.items.len() == 0 {
                1int
            } else {
                0
            })
        }),
{
    let head = seq![back_to_process(page.process_id)] + plan_entries(page.plan_text);
    let filled = head + work_entries(page.items);
    let list = page_list(page);
    assert forall|i: int| 0 <= i < page.items.len() implies list.items[head.len() + i]
        == work_entry(#[trigger] page.items[i]) by {
        assert(filled[head.len() + i] == work_entry(page.items[i]));
    }
}

/// What is told of an item ends with when it was made, where that is known, and holds its identifier,
/// its status, its content, its input and its output, each on a line of its own and in this order.
pub proof fn law_item_is_told_line_by_line(
    item: WorkItemView,
    id: Seq<char>,
    status: Seq<char>,
    input: Seq<char>,
    output: Seq<char>,
    created_at: i64,
)
    requires
        item.id == Some(id) && id.len() > 0 && id.last() != '\n',
        item.status == Some(status) && status.len() > 0 && status.last() != '\n',
        item.input == Some(input) && input.len() > 0 && input.last() != '\n',
        item.output == Some(output) && output.len() > 0 && output.last() != '\n',
        item.created_at == Some(created_at),
        item.content.len() == 0 || item.content.last() != '\n',
    ensures
        item.content.len() == 0 ==> item_description(item) == "id"@ + ": "@ + id + seq!['\n']
            + "status"@ + ": "@ + status + seq!['\n'] + "input"@ + ": "@ + input + seq!['\n']
            + "output"@ + ": "@ + output + seq!['\n'] + "created_at"@ + ": "@
            + text::signed_decimal(created_at as int),
        item.content.len() > 0 ==> item_description(item) == "id"@ + ": "@ + id + seq!['\n']
            + "status"@ + ": "@ + status + seq!['\n'] + item.content + seq!['\n'] + "input"@
            + ": "@ + input + seq!['\n'] + "output"@ + ": "@ + output + seq!['\n']
            + "created_at"@ + ": "@ + text::signed_decimal(created_at as int),
{
    let feed = seq!['\n'];
    let a = "id"@ + ": "@ + id;
    assert(Seq::<char>::empty() + "id"@ =~= "id"@);
    assert(with_field(Seq::empty(), "id"@, item.id) == a);
    assert(a.last() == id.last());
    assert(a.push('\n') =~= a + feed);
    let b = a + feed + "status"@ + ": "@ + status;
    assert(with_field(a, "status"@, item.status) == b);
    assert(b.last() == status.last());
    assert(b.push('\n') =~= b + feed);
    let c = if item.content.len() > 0 {
        b + feed + item.content
    } else {
        b
    };
    assert(with_content(b, item.content) == c);
    assert(c.last() != '\n');
    assert(c.push('\n') =~= c + feed);
    let d = c + feed + "input"@ + ": "@ + input;
    assert(d.last() == input.last());
    assert(d.push('\n') =~= d + feed);
    let e = d + feed + "output"@ + ": "@ + output;
    assert(e.last() == output.last());
    assert(e.push('\n') =~= e + feed);
}

/// An entry shows a content of at most 8192 bytes as it is, and cuts a longer one with a marker.
pub proof fn law_small_content_is_displayed_whole(s: Seq<char>)
    ensures
        text::byte_len(s) <= 8192 ==> displayed(s) == s,
        text::byte_len(s) > 8192 ==> exists|k: int|
            0 <= k < s.len() && displayed(s) == #[trigger] s.take(k)
                + "\n[content truncated for dashboard display]"@ && text::byte_len(s.take(k))
                <= 8192 && text::byte_len(s.take(k + 1)) > 8192,
{
    let marker = "\n[content truncated for dashboard display]"@;
    text::law_cut_keeps_what_fits(s, 8192, marker);
    if text::byte_len(s) > 8192 {
        let k = choose|k: int|
            0 <= k < s.len() && text::truncated(s, 8192, marker) == #[trigger] s.take(k) + marker
                && text::byte_len(s.take(k)) <= 8192 && text::byte_len(s.take(k + 1)) > 8192;
        assert(displayed(s) == s.take(k) + marker);
    }
}

/// A page tells how many items it has and where the next page starts, and so does the entry that reads on.
pub proof fn law_page_tells_where_to_read_on(page: WorkPageView)
    ensures
        page.next_cursor matches Some(cursor) ==> {
            let list = page_list(page);
            let shows_plan = page.plan_text is Some && page.plan_text.unwrap().len() > 0;
            let first: int = if shows_plan {
                2
            } else {
                1
            };
            &&& list.subtitle == text::decimal(page.items.len()) + " item(s) in this page"@ + (
            " | next cursor: "@ + cursor)
            &&& list.items[first + page.items.len()].description == Some(
                "Continue reading "@ + section_text(page.section) + " from cursor "@ + cursor
                    + "."@,
            )
        },
        page.next_cursor is None ==> page_list(page).subtitle == text::decimal(page.items.len())
            + " item(s) in this page"@ + ""@,
{
}

/// All lists of the dashboard are one view, so that a later one takes the place of an earlier one.
pub proof fn law_lists_are_one_view(
    snapshot: SupervisorSnapshotView,
    record: ProcessRecordView,
    page: WorkPageView,
    current_pid: u32,
)
    ensures
        snapshot_list(snapshot, current_pid).view_id == Some("supervisor-dashboard"@),
        details_list(record, current_pid).view_id == Some("supervisor-dashboard"@),
        page_list(page).view_id == Some("supervisor-dashboard"@),
{
}

/// A process that is gone is told by its identifier.
pub proof fn law_missing_process_is_told_by_its_identifier(id: ProcessId)
    ensures
        not_found_told(id) == "supervisor process "@ + ids::id_text(id) + " was not found"@,
{
}

} // verus!
