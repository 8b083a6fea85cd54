//! The tool with which a model asks the supervisor about the registered processes.
use crate::ids::ProcessId;
use crate::types::{ProcessRecord, SupervisorSnapshot, WorkSection};
use crate::{dashboard, ids, text};
use vstd::prelude::*;

verus! {

/// The name of the tool.
pub const CODEX_DASHBOARD_TOOL_NAME: &'static str = "codex_dashboard";

/// The number of items on a page where the model asks for none.
pub const DEFAULT_WORK_LIMIT: u32 = 20;

/// What the model calls the tool with.
#[derive(Debug, PartialEq, Eq)]
pub struct CodexDashboardArgs {
    pub process_id: Option<String>,
    pub section: Option<WorkSection>,
    pub cursor: Option<String>,
    pub limit: Option<u32>,
}

/// What the supervisor is asked.
#[derive(Debug, PartialEq, Eq)]
pub enum DashboardQuery {
    /// All processes.
    Snapshot,
    /// One process.
    Process(ProcessId),
    /// A page of what a process works on.
    Work { id: ProcessId, section: WorkSection, cursor: Option<String>, limit: u32 },
}

/// The view of [`DashboardQuery`].
#[verifier::ext_equal]
pub enum DashboardQueryView {
    Snapshot,
    Process(ProcessId),
    Work { id: ProcessId, section: WorkSection, cursor: Option<Seq<char>>, limit: u32 },
}

impl View for DashboardQuery {
    type V = DashboardQueryView;

    open spec fn view(&self) -> DashboardQueryView {
        match self {
            DashboardQuery::Snapshot => DashboardQueryView::Snapshot,
            DashboardQuery::Process(id) => DashboardQueryView::Process(*id),
            DashboardQuery::Work { id, section, cursor, limit } => DashboardQueryView::Work {
                id: *id,
                section: *section,
                cursor: text::opt_text(*cursor),
                limit: *limit,
            },
        }
    }
}

/// The question that some arguments stand for, or what the model is told.
pub open spec fn query_of(args: CodexDashboardArgs) -> Result<DashboardQueryView, Seq<char>> {
    match args.process_id {
        None => if args.section is None {
            Ok(DashboardQueryView::Snapshot)
        } else {
            Err("section requires process_id"@)
        },
        Some(process_id) => match ids::parsed_id(process_id@) {
            Some(id) => planned(id, args),
            None => Err(invalid_id_told(process_id@, ids::id_error(process_id@))),
        },
    }
}

/// The question about a process.
pub open spec fn planned(id: ProcessId, args: CodexDashboardArgs) -> Result<
    DashboardQueryView,
    Seq<char>,
> {
    match args.section {
        None => Ok(DashboardQueryView::Process(id)),
        Some(section) => Ok(
            DashboardQueryView::Work {
                id,
                section,
                cursor: text::opt_text(args.cursor),
                limit: match args.limit {
                    Some(limit) => limit,
                    None => DEFAULT_WORK_LIMIT,
                },
            },
        ),
    }
}

/// What is told of a text that is no identifier.
pub open spec fn invalid_id_told(process_id: Seq<char>, error: Seq<char>) -> Seq<char> {
    "invalid supervisor process_id `"@ + process_id + "`: "@ + error
}

/// Tells of a text that is no identifier.
pub fn invalid_id_message(process_id: &str, error: &str) -> (r: String)
    ensures
        r@ == invalid_id_told(process_id@, error@),
{
    "invalid supervisor process_id `".to_owned().concat(process_id).concat("`: ").concat(error)
}

/// The type of a parameter.
#[derive(Debug, Clone, Copy, PartialEq, Eq, Structural)]
pub enum ParameterType {
    Text,
    Integer,
}

/// A parameter of a tool.
#[derive(Debug, PartialEq, Eq)]
pub struct ToolParameter {
    pub name: String,
    pub parameter_type: ParameterType,
    pub description: String,
    /// The texts that the parameter may be, where they are fixed.
    pub choices: Vec<String>,
}

/// The view of [`ToolParameter`].
#[verifier::ext_equal]
pub struct ToolParameterView {
    pub name: Seq<char>,
    pub parameter_type: ParameterType,
    pub description: Seq<char>,
    pub choices: Seq<Seq<char>>,
}

impl View for ToolParameter {
    type V = ToolParameterView;

    open spec fn view(&self) -> ToolParameterView {
        ToolParameterView {
            name: self.name@,
            parameter_type: self.parameter_type,
            description: self.description@,
            choices: text::texts(self.choices@),
        }
    }
}

/// The description of a tool. No parameter is required, and no other one is taken.
#[derive(Debug, PartialEq, Eq)]
pub struct ToolSpec {
    pub name: String,
    pub description: String,
    pub strict: bool,
    /// The parameters in the order of their names.
    pub parameters: Vec<ToolParameter>,
    pub additional_properties: bool,
}

/// The views of some parameters.
pub open spec fn parameter_views(parameters: Seq<ToolParameter>) -> Seq<ToolParameterView> {
    Seq::new(parameters.len(), |i: int| parameters[i]@)
}

/// The name by which a section is asked for.
pub open spec fn section_choice(section: WorkSection) -> Seq<char> {
    match section {
        WorkSection::Prompt => "prompt"@,
        WorkSection::Plan => "plan"@,
        WorkSection::Messages => "messages"@,
        WorkSection::ToolCalls => "toolCalls"@,
    }
}

/// The parameters of the tool.
pub open spec fn dashboard_parameters() -> Seq<ToolParameterView> {
    seq![
        ToolParameterView {
            name: "cursor"@,
            parameter_type: ParameterType::Text,
            description: "Cursor returned by a previous page."@,
            choices: Seq::empty(),
        },
        ToolParameterView {
            name: "limit"@,
            parameter_type: ParameterType::Integer,
            description: "Maximum number of items to return, capped by supervisor."@,
            choices: Seq::empty(),
        },
        ToolParameterView {
            name: "process_id"@,
            parameter_type: ParameterType::Text,
            description: "Supervisor process id. Omit to list all registered Codex processes."@,
            choices: Seq::empty(),
        },
        ToolParameterView {
            name: "section"@,
            parameter_type: ParameterType::Text,
            description: "Work section to read when process_id is provided."@,
            choices: seq![
                section_choice(WorkSection::Prompt),
                section_choice(WorkSection::Plan),
                section_choice(WorkSection::Messages),
                section_choice(WorkSection::ToolCalls),
            ],
        },
    ]
}

fn parameter(name: &str, parameter_type: ParameterType, description: &str) -> (r: ToolParameter)
    ensures
        r@ == (ToolParameterView {
            name: name@,
            parameter_type,
            description: description@,
            choices: Seq::empty(),
        }),
{
    let r = ToolParameter {
        name: name.to_owned(),
        parameter_type,
        description: description.to_owned(),
        choices: Vec::new(),
    };
    assert(r@.choices =~= Seq::empty());
    r
}

/// Describes the tool.
pub fn create_codex_dashboard_tool() -> (r: ToolSpec)
    ensures
        r.name@ == CODEX_DASHBOARD_TOOL_NAME@,
        r.description@
            == "Query the local Codex supervisor for every registered Codex process, including lifecycle status, activity, mode, summary, and paginated prompt, plan, message, or tool-call details. Query failures are returned explicitly."@,
        !r.strict,
        parameter_views(r.parameters@) == dashboard_parameters(),
        !r.additional_properties,
{
    let mut choices: Vec<String> = Vec::new();
    choices.push("prompt".to_owned());
    choices.push("plan".to_owned());
    choices.push("messages".to_owned());
    choices.push("toolCalls".to_owned());
    let ghost names = choices@;
    assert(text::texts(names) =~= dashboard_parameters()[3].choices);
    let section = ToolParameter {
        name: "section".to_owned(),
        parameter_type: ParameterType::Text,
        description: "Work section to read when process_id is provided.".to_owned(),
        choices,
    };
    let mut parameters: Vec<ToolParameter> = Vec::new();
    parameters.push(
        parameter("cursor", ParameterType::Text, "Cursor returned by a previous page."),
    );
    parameters.push(
        parameter(
            "limit",
            ParameterType::Integer,
            "Maximum number of items to return, capped by supervisor.",
        ),
    );
    parameters.push(
        parameter(
            "process_id",
            ParameterType::Text,
            "Supervisor process id. Omit to list all registered Codex processes.",
        ),
    );
    parameters.push(section);
    assert(parameter_views(parameters@) =~= dashboard_parameters());
    ToolSpec {
        name: CODEX_DASHBOARD_TOOL_NAME.to_owned(),
        description:
            "Query the local Codex supervisor for every registered Codex process, including lifecycle status, activity, mode, summary, and paginated prompt, plan, message, or tool-call details. Query failures are returned explicitly.".to_owned(),
        strict: false,
        parameters,
        additional_properties: false,
    }
}

/// The tool.
pub struct CodexDashboardHandler;

impl CodexDashboardHandler {
    /// The name of the tool.
    pub fn tool_name(&self) -> (r: String)
        ensures
            r@ == CODEX_DASHBOARD_TOOL_NAME@,
    {
        CODEX_DASHBOARD_TOOL_NAME.to_owned()
    }

    /// Decides what the supervisor is asked. Nothing is asked on arguments that make no sense.
    pub fn handle_call(&self, args: CodexDashboardArgs) -> (r: Result<DashboardQuery, String>)
        ensures
            match query_of(args) {
                Ok(query) => r is Ok && r->Ok_0@ == query,
                Err(told) => r is Err && r->Err_0@ == told,
            },
    {
        let process_id = match args.process_id {
            Some(process_id) => process_id,
            None => {
                return if args.section.is_none() {
                    Ok(DashboardQuery::Snapshot)
                } else {
                    Err("section requires process_id".to_owned())
                };
            },
        };
        let id: ProcessId = match ids::parse_id(process_id.as_str()) {
            Ok(id) => id,
            Err(error) => {
                return Err(invalid_id_message(process_id.as_str(), error.as_str()));
            },
        };
        match args.section {
            None => Ok(DashboardQuery::Process(id)),
            Some(section) => {
                let limit: u32 = match args.limit {
                    Some(limit) => limit,
                    None => DEFAULT_WORK_LIMIT,
                };
                Ok(DashboardQuery::Work { id, section, cursor: args.cursor, limit })
            },
        }
    }

    /// Takes the process that was asked for out of a snapshot.
    pub fn select_process(&self, snapshot: &SupervisorSnapshot, id: ProcessId) -> (r: Result<
        ProcessRecord,
        String,
    >)
        ensures
            match dashboard::process_position(snapshot@.processes, id, 0) {
                Some(index) => r is Ok && r->Ok_0@ == snapshot@.processes[index],
                None => r is Err && r->Err_0@ == dashboard::not_found_told(id),
            },
    {
        dashboard::find_process(snapshot, id)
    }

    /// What the model is told where the tool is called with something else than arguments.
    pub fn unsupported_payload(&self) -> (r: String)
        ensures
            r@ == CODEX_DASHBOARD_TOOL_NAME@ + " received unsupported payload"@,
    {
        CODEX_DASHBOARD_TOOL_NAME.to_owned().concat(" received unsupported payload")
    }

    /// What the model is told where there is no supervisor to ask.
    pub fn connection_failure(&self, error: &str) -> (r: String)
        ensures
            r@ == CODEX_DASHBOARD_TOOL_NAME@ + " could not connect to supervisor: "@ + error@,
    {
        CODEX_DASHBOARD_TOOL_NAME.to_owned().concat(" could not connect to supervisor: ").concat(
            error,
        )
    }

    /// What the model is told where the supervisor did not answer a question.
    pub fn query_failure(&self, query: &DashboardQuery, error: &str) -> (r: String)
        ensures
            r@ == CODEX_DASHBOARD_TOOL_NAME@ + (if query@ is Work {
                " work query failed: "@
            } else {
                " snapshot failed: "@
            }) + error@,
    {
        let what = match query {
            DashboardQuery::Work { .. } => " work query failed: ",
            _ => " snapshot failed: ",
        };
        CODEX_DASHBOARD_TOOL_NAME.to_owned().concat(what).concat(error)
    }
}

/// A process is asked for by its identifier as it is written out everywhere.
pub proof fn law_written_identifier_is_asked_for(args: CodexDashboardArgs, id: ProcessId)
    requires
        args.process_id is Some,
        args.process_id.unwrap()@ == ids::id_text(id),
    ensures
        query_of(args) == planned(id, args),
{
    ids::law_id_text_round_trip(id);
}

/// Without an identifier the tool asks for all processes, and a section is refused. With an identifier
/// it asks for that process, or for a page of the section that was named, from the cursor on and with
/// as many items as were asked for, or else twenty.
pub proof fn law_tool_asks_what_it_was_called_with(args: CodexDashboardArgs, id: ProcessId)
    ensures
        args.process_id is None && args.section is None ==> query_of(args) == Ok::<
            DashboardQueryView,
            Seq<char>,
        >(DashboardQueryView::Snapshot),
        args.process_id is None && args.section is Some ==> query_of(args) == Err::<
            DashboardQueryView,
            Seq<char>,
        >("section requires process_id"@),
        args.process_id is Some && ids::parsed_id(args.process_id.unwrap()@) == Some(id)
            && args.section is None ==> query_of(args) == Ok::<DashboardQueryView, Seq<char>>(
            DashboardQueryView::Process(id),
        ),
        args.process_id is Some && ids::parsed_id(args.process_id.unwrap()@) == Some(id)
            && args.section is Some ==> {
            &&& query_of(args) is Ok
            &&& query_of(args)->Ok_0 is Work
            &&& query_of(args)->Ok_0->Work_id == id
            &&& query_of(args)->Ok_0->Work_section == args.section.unwrap()
            &&& args.cursor matches Some(cursor) ==> query_of(args)->Ok_0->Work_cursor == Some(
                cursor@,
            )
            &&& args.cursor is None ==> query_of(args)->Ok_0->Work_cursor is None
            &&& args.limit matches Some(limit) ==> query_of(args)->Ok_0->Work_limit == limit
            &&& args.limit is None ==> query_of(args)->Ok_0->Work_limit == 20
        },
        args.process_id is Some && ids::parsed_id(args.process_id.unwrap()@) is None ==> query_of(
            args,
        ) == Err::<DashboardQueryView, Seq<char>>(
            "invalid supervisor process_id `"@ + args.process_id.unwrap()@ + "`: "@
                + ids::id_error(args.process_id.unwrap()@),
        ),
{
}

/// The tool takes a cursor, a limit, an identifier and a section, which is one of the four that can be
/// read.
pub proof fn law_tool_takes_four_parameters()
    ensures
        dashboard_parameters().len() == 4,
        dashboard_parameters()[0].name == "cursor"@,
        dashboard_parameters()[0].parameter_type == ParameterType::Text,
        dashboard_parameters()[1].name == "limit"@,
        dashboard_parameters()[1].parameter_type == ParameterType::Integer,
        dashboard_parameters()[2].name == "process_id"@,
        dashboard_parameters()[2].parameter_type == ParameterType::Text,
        dashboard_parameters()[3].name == "section"@,
        dashboard_parameters()[3].parameter_type == ParameterType::Text,
        dashboard_parameters()[3].choices == seq![
            "prompt"@,
            "plan"@,
            "messages"@,
            "toolCalls"@,
        ],
{
}

} // verus!
