//! Loading the rules of a session from the rule-system command.
use crate::ids::ProcessId;
use crate::sidebar::{RuleListOutput, RulesSidebarLoad, MAX_RULES, MAX_RULES_OUTPUT_BYTES};
use crate::{ids, text};
use vstd::prelude::*;

verus! {

/// Why the rule-system command was not found.
#[derive(Debug, Clone, Copy, PartialEq, Eq, Structural)]
pub enum LocateError {
    NotEnabled,
    UnexpectedLayout,
    NoSkillsDirectory,
    NoCommand,
}

impl LocateError {
    /// What the user is told.
    pub open spec fn told(self) -> Seq<char> {
        match self {
            LocateError::NotEnabled => "rule-system:rule-list is not enabled for this workspace."@,
            LocateError::UnexpectedLayout => "The rule-list skill path has an unexpected layout."@,
            LocateError::NoSkillsDirectory =>
                "The rule-system skills directory could not be resolved."@,
            LocateError::NoCommand =>
                "The rule-system CLI is unavailable in the enabled plugin version."@,
        }
    }

    /// Tells the user.
    pub fn message(self) -> (r: String)
        ensures
            r@ == self.told(),
    {
        match self {
            LocateError::NotEnabled =>
                "rule-system:rule-list is not enabled for this workspace.".to_owned(),
            LocateError::UnexpectedLayout =>
                "The rule-list skill path has an unexpected layout.".to_owned(),
            LocateError::NoSkillsDirectory =>
                "The rule-system skills directory could not be resolved.".to_owned(),
            LocateError::NoCommand =>
                "The rule-system CLI is unavailable in the enabled plugin version.".to_owned(),
        }
    }
}

/// The name of the command.
pub open spec fn command_name(windows: bool) -> Seq<char> {
    if windows {
        "rule-system.exe"@
    } else {
        "rule-system"@
    }
}

/// Where the command of a plugin stands: in the directory `bin` beside the directory `skills`, in
/// which the skill has the directory `rule-list`.
pub open spec fn command_path(skill: Option<Seq<Seq<char>>>, windows: bool) -> Result<
    Seq<Seq<char>>,
    LocateError,
> {
    match skill {
        None => Err(LocateError::NotEnabled),
        Some(path) => {
            let n = path.len() as int;
            if n < 2 || path[n - 2] != "rule-list"@ {
                Err(LocateError::UnexpectedLayout)
            } else if n < 3 || path[n - 3] != "skills"@ {
                Err(LocateError::NoSkillsDirectory)
            } else {
                Ok(path.take(n - 3).push("bin"@).push(command_name(windows)))
            }
        },
    }
}

/// Finds the command from the path of the enabled skill. Paths are given by their components.
pub fn locate_rule_system_binary(skill_path: Option<&Vec<String>>, windows: bool) -> (r: Result<
    Vec<String>,
    LocateError,
>)
    ensures
        match r {
            Ok(path) => command_path(skill_of(skill_path), windows) == Ok::<_, LocateError>(
                text::texts(path@),
            ),
            Err(error) => command_path(skill_of(skill_path), windows) == Err::<Seq<Seq<char>>, _>(
                error,
            ),
        },
{
    let path = match skill_path {
        Some(path) => path,
        None => {
            return Err(LocateError::NotEnabled);
        },
    };
    let n: usize = path.len();
    if n < 2 || !text::text_eq(path[n - 2].as_str(), "rule-list") {
        return Err(LocateError::UnexpectedLayout);
    }
    if n < 3 || !text::text_eq(path[n - 3].as_str(), "skills") {
        return Err(LocateError::NoSkillsDirectory);
    }
    let mut out: Vec<String> = Vec::new();
    let mut i: usize = 0;
    while i < n - 3
        invariant
            3 <= n == path@.len(),
            i <= n - 3,
            out@.len() == i,
            forall|j: int| 0 <= j < i ==> (#[trigger] out@[j])@ == path@[j]@,
        decreases n - i,
    {
        out.push(path[i].clone());
        i = i + 1;
    }
    out.push("bin".to_owned());
    out.push(
        if windows {
            "rule-system.exe".to_owned()
        } else {
            "rule-system".to_owned()
        },
    );
    assert(text::texts(out@) =~= text::texts(path@).take(n - 3).push("bin"@).push(
        command_name(windows),
    ));
    Ok(out)
}

/// The components of the skill's path.
pub open spec fn skill_of(path: Option<&Vec<String>>) -> Option<Seq<Seq<char>>> {
    match path {
        Some(path) => Some(text::texts(path@)),
        None => None,
    }
}

/// Refuses a command that is not a file.
pub fn require_command(path: Vec<String>, is_file: bool) -> (r: Result<Vec<String>, LocateError>)
    ensures
        r == (if is_file {
            Ok(path)
        } else {
            Err(LocateError::NoCommand)
        }),
{
    if is_file {
        Ok(path)
    } else {
        Err(LocateError::NoCommand)
    }
}

/// The arguments with which the rules of a session are listed.
pub fn list_arguments(thread_id: ProcessId, project_root: &str) -> (r: Vec<String>)
    ensures
        text::texts(r@) == seq![
            "list"@,
            "--session-id"@,
            ids::id_text(thread_id),
            "--project-root"@,
            project_root@,
        ],
{
    let mut out: Vec<String> = Vec::new();
    out.push("list".to_owned());
    out.push("--session-id".to_owned());
    out.push(ids::id_to_text(thread_id));
    out.push("--project-root".to_owned());
    out.push(project_root.to_owned());
    assert(text::texts(out@) =~= seq![
        "list"@,
        "--session-id"@,
        ids::id_text(thread_id),
        "--project-root"@,
        project_root@,
    ]);
    out
}

/// How the command ended.
#[derive(Debug, PartialEq, Eq)]
pub enum CommandOutcome {
    TimedOut,
    /// It could not be started.
    NotStarted(String),
    /// It failed, with a status and what it wrote.
    Failed { status: String, stderr: Vec<u8> },
    /// It succeeded and wrote so many bytes.
    Succeeded { stdout_len: usize },
}

/// What the user is told of a command that failed.
pub open spec fn failure_told(status: Seq<char>, written: Seq<char>) -> Seq<char> {
    let detail = text::trimmed(written);
    if detail.len() == 0 {
        "rule-system exited with "@ + status + "."@
    } else {
        "rule-system failed: "@ + detail
    }
}

/// Tells of a command that failed, from its status and what it wrote.
pub fn failure_message(status: &str, written: &str) -> (r: String)
    ensures
        r@ == failure_told(status@, written@),
{
    let detail = text::trim(written);
    if text::is_empty(detail) {
        "rule-system exited with ".to_owned().concat(status).concat(".")
    } else {
        "rule-system failed: ".to_owned().concat(detail)
    }
}

/// Why the output of a command is not read, if it is not.
pub open spec fn command_failure_told(outcome: CommandOutcome) -> Option<Seq<char>> {
    match outcome {
        CommandOutcome::TimedOut => Some("Timed out while loading rules from rule-system."@),
        CommandOutcome::NotStarted(error) => Some("Failed to start rule-system: "@ + error@),
        CommandOutcome::Failed { status, stderr } => Some(
            failure_told(status@, text::lossy_text(stderr@)),
        ),
        CommandOutcome::Succeeded { stdout_len } => if stdout_len > MAX_RULES_OUTPUT_BYTES {
            Some("rule-system returned more than 1 MiB of rule data."@)
        } else {
            None
        },
    }
}

/// Decides whether the output of a command is read.
pub fn command_failure(outcome: &CommandOutcome) -> (r: Option<String>)
    ensures
        text::opt_text(r) == command_failure_told(*outcome),
{
    match outcome {
        CommandOutcome::TimedOut => Some(
            "Timed out while loading rules from rule-system.".to_owned(),
        ),
        CommandOutcome::NotStarted(error) => Some(
            "Failed to start rule-system: ".to_owned().concat(error.as_str()),
        ),
        CommandOutcome::Failed { status, stderr } => {
            let written = text::bytes_to_text(stderr);
            Some(failure_message(status.as_str(), written.as_str()))
        },
        CommandOutcome::Succeeded { stdout_len } => if *stdout_len > MAX_RULES_OUTPUT_BYTES {
            Some("rule-system returned more than 1 MiB of rule data.".to_owned())
        } else {
            None
        },
    }
}

/// Why a rule list is refused, if it is: it is for another session, its count is wrong, or it is
/// too long.
pub open spec fn list_refusal(
    session_id: Seq<char>,
    rule_count: nat,
    rules: nat,
    thread_id: ProcessId,
) -> Option<Seq<char>> {
    if session_id != ids::id_text(thread_id) {
        Some("rule-system returned rules for a different session."@)
    } else if rule_count != rules {
        Some("rule-system returned an inconsistent rule count."@)
    } else if rules > MAX_RULES {
        Some("rule-system returned more than 256 rules."@)
    } else {
        None
    }
}

/// Takes the rules out of what the command reported. `response` is the report, or why it could not
/// be read.
pub fn parse_rules_output(response: Result<RuleListOutput, String>, thread_id: ProcessId) -> (r:
    Result<RulesSidebarLoad, String>)
    ensures
        match response {
            Err(error) => r is Err && r->Err_0@ == "rule-system returned invalid JSON: "@ + error@,
            Ok(list) => match list_refusal(
                list.session_id@,
                list.rule_count as nat,
                list.rules@.len(),
                thread_id,
            ) {
                Some(refusal) => r is Err && r->Err_0@ == refusal,
                None => r is Ok && r->Ok_0.rules == list.rules,
            },
        },
{
    let list = match response {
        Ok(list) => list,
        Err(error) => {
            return Err("rule-system returned invalid JSON: ".to_owned().concat(error.as_str()));
        },
    };
    let expected = ids::id_to_text(thread_id);
    if list.session_id != expected {
        return Err("rule-system returned rules for a different session.".to_owned());
    }
    if list.rule_count != list.rules.len() {
        return Err("rule-system returned an inconsistent rule count.".to_owned());
    }
    if list.rules.len() > MAX_RULES {
        return Err("rule-system returned more than 256 rules.".to_owned());
    }
    Ok(RulesSidebarLoad { rules: list.rules })
}

/// The rules of another session are never taken, whatever else is reported.
pub proof fn law_rules_of_another_session_are_refused(
    other: ProcessId,
    thread_id: ProcessId,
    rule_count: nat,
    rules: nat,
)
    requires
        other != thread_id,
    ensures
        list_refusal(ids::id_text(other), rule_count, rules, thread_id) == Some(
            "rule-system returned rules for a different session."@,
        ),
{
    if ids::id_text(other) == ids::id_text(thread_id) {
        ids::law_id_text_is_injective(other, thread_id);
    }
}

/// The command stands in `bin` beside the directory `skills` of the enabled skill `rule-list`, under the
/// name that the system uses for programs.
pub proof fn law_command_stands_beside_the_skills(
    plugin: Seq<Seq<char>>,
    file: Seq<char>,
    windows: bool,
)
    ensures
        command_path(Some(plugin.push("skills"@).push("rule-list"@).push(file)), windows) == Ok::<
            _,
            LocateError,
        >(
            plugin.push("bin"@).push(
                if windows {
                    "rule-system.exe"@
                } else {
                    "rule-system"@
                },
            ),
        ),
        command_path(None, windows) == Err::<Seq<Seq<char>>, _>(LocateError::NotEnabled),
{
    let path = plugin.push("skills"@).push("rule-list"@).push(file);
    assert(path.take(path.len() - 3) =~= plugin);
}

/// A skill that does not stand in `rule-list` is refused for its layout, and one outside `skills` for its
/// directory.
pub proof fn law_other_layouts_are_refused(path: Seq<Seq<char>>, windows: bool)
    ensures
        command_path(Some(path), windows) == Err::<Seq<Seq<char>>, _>(
            LocateError::UnexpectedLayout,
        ) <==> path.len() < 2 || path[path.len() - 2] != "rule-list"@,
        command_path(Some(path), windows) == Err::<Seq<Seq<char>>, _>(
            LocateError::NoSkillsDirectory,
        ) <==> path.len() >= 2 && path[path.len() - 2] == "rule-list"@ && (path.len() == 2
            || path[path.len() - 3] != "skills"@),
        command_path(Some(path), windows) is Ok <==> path.len() >= 3 && path[path.len() - 2]
            == "rule-list"@ && path[path.len() - 3] == "skills"@,
{
}

/// Each reason has its own words.
pub proof fn law_reasons_are_told_in_words()
    ensures
        LocateError::NotEnabled.told()
            == "rule-system:rule-list is not enabled for this workspace."@,
        LocateError::UnexpectedLayout.told()
            == "The rule-list skill path has an unexpected layout."@,
        LocateError::NoSkillsDirectory.told()
            == "The rule-system skills directory could not be resolved."@,
        LocateError::NoCommand.told()
            == "The rule-system CLI is unavailable in the enabled plugin version."@,
{
}

/// A command that failed is told by what it wrote, without the white space around it, and by its status if
/// it wrote nothing.
pub proof fn law_failure_is_told_by_what_was_written(status: Seq<char>, written: Seq<char>)
    ensures
        text::trimmed(written).len() > 0 ==> failure_told(status, written)
            == "rule-system failed: "@ + text::trimmed(written),
        text::trimmed(written).len() == 0 ==> failure_told(status, written)
            == "rule-system exited with "@ + status + "."@,
{
}

/// The output of a command is read exactly if it succeeded with at most a mebibyte.
pub proof fn law_output_is_read_after_success(outcome: CommandOutcome)
    ensures
        command_failure_told(outcome) is None <==> (outcome is Succeeded && outcome->stdout_len
            <= 1048576),
        outcome is TimedOut ==> command_failure_told(outcome) == Some(
            "Timed out while loading rules from rule-system."@,
        ),
        outcome matches CommandOutcome::NotStarted(error) ==> command_failure_told(outcome) == Some(
            "Failed to start rule-system: "@ + error@,
        ),
        outcome matches CommandOutcome::Failed { status, stderr } ==> command_failure_told(outcome)
            == Some(failure_told(status@, text::lossy_text(stderr@))),
        outcome is Succeeded && outcome->stdout_len > 1048576 ==> command_failure_told(outcome)
            == Some("rule-system returned more than 1 MiB of rule data."@),
{
}

/// A list is taken exactly if it is for the session, counts its rules right and has at most 256 of them.
/// Else the first of these that does not hold is told.
pub proof fn law_list_is_taken_if_it_is_right(
    session_id: Seq<char>,
    rule_count: nat,
    rules: nat,
    thread_id: ProcessId,
)
    ensures
        ({
            let refusal = list_refusal(session_id, rule_count, rules, thread_id);
            let own = session_id == ids::id_text(thread_id);
            &&& refusal is None <==> own && rule_count == rules && rules <= 256
            &&& !own ==> refusal == Some("rule-system returned rules for a different session."@)
            &&& own && rule_count != rules ==> refusal == Some(
                "rule-system returned an inconsistent rule count."@,
            )
            &&& own && rule_count == rules && rules > 256 ==> refusal == Some(
                "rule-system returned more than 256 rules."@,
            )
        }),
{
}

} // verus!
