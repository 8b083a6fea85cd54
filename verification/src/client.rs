//! The client side of the supervisor: what it asks, and what it makes of the answers.
use crate::identity::{ProcessArg, WorkerArgsError, WorkerIdentity};
use crate::ids::ProcessId;
use crate::protocol::{
    RegisterRequest, RegisterRequestView, Request, Response, ResponseView, SpawnWorkerRequest,
    SpawnWorkerRequestView, WorkRequest, PROTOCOL_VERSION,
};
use crate::registry::SupervisorStateView;
use crate::types::{ProcessKind, ProcessStatus, SupervisorSnapshot, WorkPage, WorkSection};
use crate::{identity, registry, terminal, text, transport};
use vstd::prelude::*;

verus! {

/// The number of seconds in which a started supervisor has to become ready.
pub const START_TIMEOUT_SECONDS: u64 = 10;

/// What a client needs to reach its supervisor.
#[derive(Debug, PartialEq, Eq)]
pub struct SupervisorClient {
    pub endpoint: String,
    pub token: String,
    pub codex_home: String,
}

/// A worker to be started.
#[derive(Debug, PartialEq, Eq)]
pub struct WorkerSpec {
    pub executable: String,
    pub args: Vec<ProcessArg>,
    pub cwd: String,
    pub kind: ProcessKind,
    pub thread_id: Option<String>,
}

/// A process under management.
#[derive(Debug, Clone, Copy, PartialEq, Eq, Structural)]
pub struct SupervisorLease {
    pub id: ProcessId,
    pub lease_token: ProcessId,
}

impl SupervisorLease {
    /// The identity of the process.
    pub fn id(&self) -> (r: ProcessId)
        ensures
            r == self.id,
    {
        self.id
    }

    /// The request that gives the lease back.
    pub fn close_request(&self) -> (r: Request)
        ensures
            r == (Request::Unregister { id: self.id, lease_token: self.lease_token }),
    {
        Request::Unregister { id: self.id, lease_token: self.lease_token }
    }
}

/// The facts about the current process that a registration names.
#[derive(Debug, PartialEq, Eq)]
pub struct ProcessFacts {
    pub pid: u32,
    pub parent_pid: Option<u32>,
    pub kind: ProcessKind,
    pub executable: String,
    pub cwd: String,
    pub thread_id: Option<String>,
}

/// The identity under which a process registers: the one it was started with, or a fresh one.
pub open spec fn own_identity(
    worker: Option<WorkerIdentity>,
    fresh_id: ProcessId,
    fresh_token: ProcessId,
) -> WorkerIdentity {
    match worker {
        Some(identity) => identity,
        None => WorkerIdentity { id: fresh_id, lease_token: fresh_token },
    }
}

/// The request by which a process registers.
pub open spec fn registration_of(
    codex_home: Seq<char>,
    facts: ProcessFacts,
    own: WorkerIdentity,
    args: Seq<identity::ProcessArgView>,
    worker_token: Seq<char>,
) -> RegisterRequestView {
    RegisterRequestView {
        id: Some(own.id),
        lease_token: Some(own.lease_token),
        pid: facts.pid,
        parent_pid: facts.parent_pid,
        kind: facts.kind,
        executable: facts.executable@,
        argv: identity::shown_args(
            if args.len() > 0 {
                args.skip(1)
            } else {
                args
            },
        ),
        cwd: facts.cwd@,
        thread_id: text::opt_text(facts.thread_id),
        worker_endpoint: transport::worker_socket(codex_home, own.id),
        worker_token,
    }
}

/// What the answer to a registration means.
#[derive(Debug, PartialEq, Eq)]
pub enum Registration {
    /// The process is managed under this lease.
    Accepted(SupervisorLease),
    /// The supervisor speaks another version. The lease has to be given back.
    Incompatible { lease: SupervisorLease, message: String },
    /// The answer is no answer to a registration.
    Invalid { message: String },
}

/// The view of [`Registration`].
#[verifier::ext_equal]
pub enum RegistrationView {
    Accepted(SupervisorLease),
    Incompatible { lease: SupervisorLease, message: Seq<char> },
    Invalid { message: Seq<char> },
}

impl View for Registration {
    type V = RegistrationView;

    open spec fn view(&self) -> RegistrationView {
        match self {
            Registration::Accepted(lease) => RegistrationView::Accepted(*lease),
            Registration::Incompatible { lease, message } => RegistrationView::Incompatible {
                lease: *lease,
                message: message@,
            },
            Registration::Invalid { message } => RegistrationView::Invalid { message: message@ },
        }
    }
}

/// An optional version in words.
pub open spec fn version_text(version: Option<u32>) -> Seq<char> {
    match version {
        Some(version) => "Some("@ + text::decimal(version as nat) + ")"@,
        None => "None"@,
    }
}

/// Another version than expected, in words.
pub open spec fn incompatible_message(got: Seq<char>) -> Seq<char> {
    "incompatible codex supervisor protocol: expected "@ + text::decimal(PROTOCOL_VERSION as nat)
        + ", got "@ + got
}

/// What the answer to a registration means.
pub open spec fn registration_result(response: ResponseView) -> RegistrationView {
    match response {
        ResponseView::Registered { id, lease_token, protocol_version } => {
            let lease = SupervisorLease { id, lease_token };
            if protocol_version == Some(PROTOCOL_VERSION) {
                RegistrationView::Accepted(lease)
            } else {
                RegistrationView::Incompatible {
                    lease,
                    message: incompatible_message(version_text(protocol_version)),
                }
            }
        },
        _ => RegistrationView::Invalid {
            message: "supervisor returned an invalid register response"@,
        },
    }
}

fn incompatible(got: &str) -> (r: String)
    ensures
        r@ == incompatible_message(got@),
{
    "incompatible codex supervisor protocol: expected ".to_owned().concat(
        text::decimal_text(PROTOCOL_VERSION as u64).as_str(),
    ).concat(", got ").concat(got)
}

impl SupervisorClient {
    /// A client of the supervisor of a home directory, given the text of its token file.
    pub fn connect_at(codex_home: &str, token_contents: &str) -> (r: Result<Self, String>)
        ensures
            match transport::token_in(token_contents@) {
                Some(token) => r is Ok && r->Ok_0.token@ == token && r->Ok_0.codex_home@
                    == codex_home@ && r->Ok_0.endpoint@ == transport::supervisor_socket(
                    codex_home@,
                ),
                None => r is Err && r->Err_0@ == "codex supervisor token is empty"@,
            },
    {
        match transport::stored_token(token_contents) {
            Some(token) => Ok(
                SupervisorClient {
                    endpoint: transport::endpoint_for_codex_home(codex_home),
                    token,
                    codex_home: codex_home.to_owned(),
                },
            ),
            None => Err("codex supervisor token is empty".to_owned()),
        }
    }

    /// The request by which the current process registers, given its arguments.
    pub fn registration_request(
        &self,
        facts: ProcessFacts,
        args: &Vec<ProcessArg>,
        fresh_id: ProcessId,
        fresh_token: ProcessId,
        worker_token: String,
    ) -> (r: Result<RegisterRequest, WorkerArgsError>)
        ensures
            match identity::parsed_args(identity::arg_views(args@), None) {
                Ok((worker, rest)) => r is Ok && r->Ok_0@ == registration_of(
                    self.codex_home@,
                    facts,
                    own_identity(worker, fresh_id, fresh_token),
                    rest,
                    worker_token@,
                ),
                Err(error) => r is Err && r->Err_0@ == error,
            },
    {
        match identity::parse_worker_args(args) {
            Err(error) => Err(error),
            Ok((worker, rest)) => {
                let own = match worker {
                    Some(identity) => identity,
                    None => WorkerIdentity { id: fresh_id, lease_token: fresh_token },
                };
                let from: usize = if rest.len() > 0 {
                    1
                } else {
                    0
                };
                let argv = identity::show_args(&rest, from);
                let ghost views = identity::arg_views(rest@);
                assert(from == 0 ==> views.skip(0) =~= views);
                Ok(
                    RegisterRequest {
                        id: Some(own.id),
                        lease_token: Some(own.lease_token),
                        pid: facts.pid,
                        parent_pid: facts.parent_pid,
                        kind: facts.kind,
                        executable: facts.executable,
                        argv,
                        cwd: facts.cwd,
                        thread_id: facts.thread_id,
                        worker_endpoint: transport::worker_endpoint_for_codex_home(
                            self.codex_home.as_str(),
                            own.id,
                        ),
                        worker_token,
                    },
                )
            },
        }
    }

    /// What the answer to a registration means.
    pub fn registration_outcome(response: Response) -> (r: Registration)
        ensures
            r@ == registration_result(response@),
    {
        match response {
            Response::Registered { id, lease_token, protocol_version } => {
                let lease = SupervisorLease { id, lease_token };
                match protocol_version {
                    Some(version) => if version == PROTOCOL_VERSION {
                        Registration::Accepted(lease)
                    } else {
                        let got = "Some(".to_owned().concat(
                            text::decimal_text(version as u64).as_str(),
                        ).concat(")");
                        Registration::Incompatible { lease, message: incompatible(got.as_str()) }
                    },
                    None => Registration::Incompatible { lease, message: incompatible("None") },
                }
            },
            _ => Registration::Invalid {
                message: "supervisor returned an invalid register response".to_owned(),
            },
        }
    }

    /// The request that starts a worker.
    pub fn spawn_request(spec: WorkerSpec) -> (r: Request)
        ensures
            r is SpawnWorker,
            r->SpawnWorker_0@ == (SpawnWorkerRequestView {
                executable: spec.executable@,
                args: identity::shown_args(identity::arg_views(spec.args@)),
                cwd: spec.cwd@,
                kind: spec.kind,
                thread_id: text::opt_text(spec.thread_id),
            }),
    {
        let args = identity::show_args(&spec.args, 0);
        let ghost views = identity::arg_views(spec.args@);
        assert(views.skip(0) =~= views);
        Request::SpawnWorker(
            SpawnWorkerRequest {
                executable: spec.executable,
                args,
                cwd: spec.cwd,
                kind: spec.kind,
                thread_id: spec.thread_id,
            },
        )
    }

    /// The request for one page of a worker's content.
    pub fn work_page_request(
        id: ProcessId,
        section: WorkSection,
        cursor: Option<String>,
        limit: u32,
    ) -> (r: Request)
        ensures
            r == Request::ReadWork(WorkRequest { id, section, cursor, limit }),
    {
        Request::ReadWork(WorkRequest { id, section, cursor, limit })
    }

    /// Separates an error from the other answers.
    pub fn call_outcome(response: Response) -> (r: Result<Response, String>)
        ensures
            match response {
                Response::Error { message } => r == Err::<Response, String>(message),
                _ => r == Ok::<Response, String>(response),
            },
    {
        match response {
            Response::Error { message } => Err(message),
            _ => Ok(response),
        }
    }

    /// The identity of a started worker.
    pub fn spawned_worker(response: Response) -> (r: Result<ProcessId, String>)
        ensures
            match response@ {
                ResponseView::Spawned { id, .. } => r == Ok::<ProcessId, String>(id),
                _ => r is Err && r->Err_0@ == "supervisor returned an invalid spawn response"@,
            },
    {
        match response {
            Response::Spawned { id, .. } => Ok(id),
            _ => Err("supervisor returned an invalid spawn response".to_owned()),
        }
    }

    /// The snapshot in an answer, if it speaks the same version.
    pub fn listed_processes(response: Response) -> (r: Result<SupervisorSnapshot, String>)
        ensures
            match response@ {
                ResponseView::Snapshot(snapshot) => if snapshot.protocol_version
                    == PROTOCOL_VERSION {
                    r is Ok && r->Ok_0@ == snapshot
                } else {
                    r is Err && r->Err_0@ == incompatible_message(
                        text::decimal(snapshot.protocol_version as nat),
                    )
                },
                _ => r is Err && r->Err_0@ == "supervisor returned an invalid list response"@,
            },
    {
        match response {
            Response::Snapshot(snapshot) => if snapshot.protocol_version == PROTOCOL_VERSION {
                Ok(snapshot)
            } else {
                Err(
                    incompatible(
                        text::decimal_text(snapshot.protocol_version as u64).as_str(),
                    ),
                )
            },
            _ => Err("supervisor returned an invalid list response".to_owned()),
        }
    }

    /// The page in an answer.
    pub fn received_page(response: Response) -> (r: Result<WorkPage, String>)
        ensures
            match response@ {
                ResponseView::WorkPage(page) => r is Ok && r->Ok_0@ == page,
                _ => r is Err && r->Err_0@ == "supervisor returned an invalid work page response"@,
            },
    {
        match response {
            Response::WorkPage(page) => Ok(page),
            _ => Err("supervisor returned an invalid work page response".to_owned()),
        }
    }

    /// Whether an answer acknowledges a request of this kind.
    pub fn acknowledged(response: Response, what: &str) -> (r: Result<(), String>)
        ensures
            match response@ {
                ResponseView::Ack => r is Ok,
                _ => r is Err && r->Err_0@ == "supervisor returned an invalid "@ + what@
                    + " response"@,
            },
    {
        match response {
            Response::Ack => Ok(()),
            _ => Err(
                "supervisor returned an invalid ".to_owned().concat(what).concat(" response"),
            ),
        }
    }

    /// Whether an answer shows a living supervisor.
    pub fn answered_ping(response: Response) -> (r: Result<(), String>)
        ensures
            match response@ {
                ResponseView::Pong => r is Ok,
                _ => r is Err && r->Err_0@ == "supervisor returned an invalid ping response"@,
            },
    {
        match response {
            Response::Pong => Ok(()),
            _ => Err("supervisor returned an invalid ping response".to_owned()),
        }
    }
}

/// The next step on the way to a supervisor that answers.
#[derive(Debug, PartialEq, Eq)]
pub enum StartStep {
    /// The supervisor answers.
    Ready,
    /// Start a supervisor.
    StartDaemon,
    /// Wait and try again.
    Wait,
    /// Give up, for this reason.
    GiveUp(String),
}

/// Decides how to go on: a supervisor is started at most once, and then waited for until the
/// deadline.
pub fn next_start_step(answers: bool, started: bool, past_deadline: bool) -> (r: StartStep)
    ensures
        if answers {
            r is Ready
        } else if !started {
            r is StartDaemon
        } else if past_deadline {
            r is GiveUp && r->GiveUp_0@ == "codex supervisor did not become ready within "@
                + text::decimal(START_TIMEOUT_SECONDS as nat) + " seconds"@
        } else {
            r is Wait
        },
{
    if answers {
        StartStep::Ready
    } else if !started {
        StartStep::StartDaemon
    } else if past_deadline {
        StartStep::GiveUp(
            "codex supervisor did not become ready within ".to_owned().concat(
                text::decimal_text(START_TIMEOUT_SECONDS).as_str(),
            ).concat(" seconds"),
        )
    } else {
        StartStep::Wait
    }
}

/// A process that the supervisor does not know yet is accepted, under the identity that it asked for
/// and as a running process.
pub proof fn law_registration_is_accepted(
    before: SupervisorStateView,
    codex_home: Seq<char>,
    facts: ProcessFacts,
    own: WorkerIdentity,
    args: Seq<identity::ProcessArgView>,
    worker_token: Seq<char>,
    fresh: (ProcessId, ProcessId),
    now: i64,
    answer: Result<ResponseView, Seq<char>>,
    after: SupervisorStateView,
)
    requires
        before.well_formed(),
        !before.records.contains_key(own.id),
        facts.pid > 0,
        facts.executable@.len() > 0,
        worker_token.len() > 0,
        registry::registration(
            before,
            registration_of(codex_home, facts, own, args, worker_token),
            fresh.0,
            fresh.1,
            now,
            answer,
            after,
        ),
    ensures
        answer matches Ok(response) && registration_result(response) == RegistrationView::Accepted(
            SupervisorLease { id: own.id, lease_token: own.lease_token },
        ),
        after.records.contains_key(own.id),
        after.records[own.id].status == ProcessStatus::Running,
        after.leases.contains_key(own.id) && after.leases[own.id] == own.lease_token,
{
    reveal_strlit("worker-");
    assert(!before.leases.contains_key(own.id)) by {
        assert(before.leases.dom() == before.records.dom());
        assert(before.leases.dom().contains(own.id) == before.leases.contains_key(own.id));
    }
    assert(!before.workers.contains_key(own.id)) by {
        assert(before.workers.dom().contains(own.id) ==> before.records.dom().contains(own.id));
    }
    assert(transport::worker_socket(codex_home, own.id).len() > 0);
}

/// A started worker registers under the identity it was started with, and shows the arguments it was
/// meant to get.
pub proof fn law_started_worker_registers_as_itself(
    codex_home: Seq<char>,
    facts: ProcessFacts,
    program: Seq<char>,
    worker: WorkerIdentity,
    args: Seq<Seq<char>>,
    fresh: (ProcessId, ProcessId),
    worker_token: Seq<char>,
)
    requires
        program != identity::SUPERVISOR_WORKER_ARG@,
        !args.contains(identity::SUPERVISOR_WORKER_ARG@),
    ensures
        identity::parsed_args(
            identity::as_args(seq![program] + identity::worker_arguments(worker, args)),
            None,
        ) matches Ok((found, rest)) && {
            let request = registration_of(
                codex_home,
                facts,
                own_identity(found, fresh.0, fresh.1),
                rest,
                worker_token,
            );
            &&& request.id == Some(worker.id)
            &&& request.lease_token == Some(worker.lease_token)
            &&& request.argv == args
        },
{
    identity::law_worker_reads_back_its_identity(program, worker, args);
    let rest = identity::as_args(seq![program] + args);
    assert(identity::shown_args(rest.skip(1)) =~= args);
}

/// The code unit of a backslash.
pub const BACKSLASH: u16 = 0x5c;

/// The code unit of a quotation mark.
pub const QUOTE: u16 = 0x22;

/// Some backslashes.
pub open spec fn backslashes(count: nat) -> Seq<u16> {
    Seq::new(count, |i: int| BACKSLASH)
}

/// The inside of a quoted argument, behind `pending` backslashes that are not yet written: a
/// quotation mark is escaped, and backslashes at the end are doubled.
pub open spec fn escaped_units(units: Seq<u16>, pending: nat) -> Seq<u16>
    decreases units.len(),
{
    if units.len() == 0 {
        backslashes(2 * pending)
    } else if units[0] == BACKSLASH {
        escaped_units(units.drop_first(), pending + 1)
    } else if units[0] == QUOTE {
        backslashes(pending + 1) + seq![QUOTE] + escaped_units(units.drop_first(), 0)
    } else {
        backslashes(pending) + seq![units[0]] + escaped_units(units.drop_first(), 0)
    }
}

/// An argument between quotation marks.
pub open spec fn quoted_units(units: Seq<u16>) -> Seq<u16> {
    seq![QUOTE] + escaped_units(units, 0) + seq![QUOTE]
}

/// Appends some backslashes.
fn push_backslashes(out: &mut Vec<u16>, count: usize)
    ensures
        final(out)@ == old(out)@ + backslashes(count as nat),
{
    let mut i: usize = 0;
    assert(out@ =~= old(out)@ + backslashes(0));
    while i < count
        invariant
            i <= count,
            out@ == old(out)@ + backslashes(i as nat),
        decreases count - i,
    {
        out.push(BACKSLASH);
        i = i + 1;
        assert(out@ =~= old(out)@ + backslashes(i as nat));
    }
}

/// Quotes an argument for a command line of Windows, in UTF-16.
pub fn quote_windows_arg(argument: &Vec<u16>) -> (r: Vec<u16>)
    ensures
        r@ == quoted_units(argument@),
{
    let mut quoted: Vec<u16> = Vec::new();
    quoted.push(QUOTE);
    let mut pending: usize = 0;
    let mut i: usize = 0;
    let ghost whole = quoted_units(argument@);
    assert(argument@.skip(0) =~= argument@);
    assert(whole =~= quoted@ + escaped_units(argument@.skip(0), 0) + seq![QUOTE]);
    while i < argument.len()
        invariant
            i <= argument@.len(),
            pending <= i,
            whole == quoted@ + escaped_units(argument@.skip(i as int), pending as nat) + seq![QUOTE],
        decreases argument@.len() - i,
    {
        let unit: u16 = argument[i];
        let ghost rest = argument@.skip(i as int);
        let ghost before = quoted@;
        assert(rest.drop_first() =~= argument@.skip(i + 1));
        if unit == BACKSLASH {
            pending = pending + 1;
        } else {
            push_backslashes(&mut quoted, pending);
            if unit == QUOTE {
                quoted.push(BACKSLASH);
                assert(quoted@ =~= before + backslashes((pending + 1) as nat));
            }
            pending = 0;
            quoted.push(unit);
            assert(whole =~= quoted@ + escaped_units(argument@.skip(i + 1), 0) + seq![QUOTE]);
        }
        i = i + 1;
    }
    assert(argument@.skip(i as int).len() == 0);
    push_backslashes(&mut quoted, pending);
    push_backslashes(&mut quoted, pending);
    quoted.push(QUOTE);
    assert(quoted@ =~= whole);
    quoted
}

/// The command line that starts the supervisor on Windows, in UTF-16 with a zero at its end.
pub fn daemon_command_line(executable: &Vec<u16>) -> (r: Vec<u16>)
    ensures
        r@ == quoted_units(executable@) + terminal::utf16_units(
            " "@ + identity::DAEMON_ARG@,
        ) + seq![0u16],
{
    let mut line = quote_windows_arg(executable);
    let ghost quoted = line@;
    let argument = " ".to_owned().concat(identity::DAEMON_ARG);
    let mut units = terminal::encode_utf16(argument.as_str());
    let ghost tail = units@;
    line.append(&mut units);
    line.push(0);
    assert(line@ =~= quoted + tail + seq![0u16]);
    line
}

/// How Windows reads the inside of a quoted argument, behind `pending` backslashes: in front of a
/// quotation mark two backslashes are one, and an odd one makes the mark part of the argument. The
/// argument ends with a mark that is no part of it.
pub open spec fn unescaped_units(units: Seq<u16>, pending: nat) -> Option<Seq<u16>>
    decreases units.len(),
{
    if units.len() == 0 {
        None
    } else if units[0] == BACKSLASH {
        unescaped_units(units.drop_first(), pending + 1)
    } else if units[0] == QUOTE && pending % 2 == 0 {
        if units.len() == 1 {
            Some(backslashes(pending / 2))
        } else {
            None
        }
    } else {
        let before = if units[0] == QUOTE {
            backslashes(pending / 2)
        } else {
            backslashes(pending)
        };
        match unescaped_units(units.drop_first(), 0) {
            Some(rest) => Some(before + seq![units[0]] + rest),
            None => None,
        }
    }
}

proof fn lemma_unescape_backslashes(count: nat, rest: Seq<u16>, pending: nat)
    ensures
        unescaped_units(backslashes(count) + rest, pending) == unescaped_units(
            rest,
            pending + count,
        ),
    decreases count,
{
    if count == 0 {
        assert(backslashes(0) + rest =~= rest);
    } else {
        let units = backslashes(count) + rest;
        assert(units.drop_first() =~= backslashes((count - 1) as nat) + rest);
        lemma_unescape_backslashes((count - 1) as nat, rest, pending + 1);
    }
}

proof fn lemma_unescape_escaped(units: Seq<u16>, pending: nat)
    requires
        pending > 0 && units.len() > 0 ==> units[0] != QUOTE,
        forall|i: int, j: int|
            0 <= i && j == i + 1 && j < units.len() && #[trigger] units[i] == BACKSLASH
                ==> #[trigger] units[j] != QUOTE,
    ensures
        unescaped_units(escaped_units(units, pending) + seq![QUOTE], 0) == Some(
            backslashes(pending) + units,
        ),
    decreases units.len(),
{
    let end = seq![QUOTE];
    if units.len() == 0 {
        lemma_unescape_backslashes(2 * pending, end, 0);
        assert(backslashes(pending) + units =~= backslashes(pending));
    } else {
        let rest = units.drop_first();
        assert forall|i: int, j: int|
            0 <= i && j == i + 1 && j < rest.len() && #[trigger] rest[i] == BACKSLASH implies
            #[trigger] rest[j] != QUOTE by {
            assert(rest[i] == units[i + 1]);
            assert(rest[j] == units[j + 1]);
        }
        if units[0] == BACKSLASH {
            if rest.len() > 0 {
                assert(units[1] == rest[0]);
            }
            lemma_unescape_escaped(rest, pending + 1);
            assert(backslashes(pending + 1) + rest =~= backslashes(pending) + units);
        } else {
            lemma_unescape_escaped(rest, 0);
            let tail = escaped_units(rest, 0) + end;
            assert(backslashes(0) + rest =~= rest);
            let front = if units[0] == QUOTE {
                pending + 1
            } else {
                pending
            };
            let behind = seq![units[0]] + tail;
            assert(escaped_units(units, pending) + end =~= backslashes(front) + behind);
            lemma_unescape_backslashes(front, behind, 0);
            assert(behind.drop_first() =~= tail);
            assert(backslashes(pending) + seq![units[0]] + rest =~= backslashes(pending) + units);
        }
    }
}

/// Windows reads back what was quoted, as long as no backslash stands right in front of a quotation
/// mark in it.
pub proof fn law_quoted_argument_reads_back(units: Seq<u16>)
    requires
        forall|i: int, j: int|
            0 <= i && j == i + 1 && j < units.len() && #[trigger] units[i] == BACKSLASH
                ==> #[trigger] units[j] != QUOTE,
    ensures
        quoted_units(units)[0] == QUOTE,
        unescaped_units(quoted_units(units).drop_first(), 0) == Some(units),
{
    lemma_unescape_escaped(units, 0);
    assert(quoted_units(units).drop_first() =~= escaped_units(units, 0) + seq![QUOTE]);
    assert(backslashes(0) + units =~= units);
}

/// A process registers with its own facts: its number and its parent's, its kind, its program, its
/// directory and its thread, its arguments without the program, and where its worker listens and what
/// admits a request there.
pub proof fn law_registration_tells_the_facts(
    codex_home: Seq<char>,
    facts: ProcessFacts,
    own: WorkerIdentity,
    program: identity::ProcessArgView,
    args: Seq<Seq<char>>,
    worker_token: Seq<char>,
)
    ensures
        ({
            let request = registration_of(
                codex_home,
                facts,
                own,
                seq![program] + identity::as_args(args),
                worker_token,
            );
            &&& request.id == Some(own.id)
            &&& request.lease_token == Some(own.lease_token)
            &&& request.pid == facts.pid
            &&& request.parent_pid == facts.parent_pid
            &&& request.kind == facts.kind
            &&& request.executable == facts.executable@
            &&& request.cwd == facts.cwd@
            &&& request.argv == args
            &&& facts.thread_id matches Some(thread_id) ==> request.thread_id == Some(thread_id@)
            &&& facts.thread_id is None ==> request.thread_id is None
            &&& request.worker_endpoint == transport::worker_socket(codex_home, own.id)
            &&& request.worker_token == worker_token
        }),
{
    let all = seq![program] + identity::as_args(args);
    assert(all.skip(1) =~= identity::as_args(args));
    assert(identity::shown_args(all.skip(1)) =~= args);
}

/// A process that was started as a worker is the one it was started as; any other process is the fresh
/// one.
pub proof fn law_worker_is_what_it_was_started_as(
    worker: WorkerIdentity,
    fresh_id: ProcessId,
    fresh_token: ProcessId,
)
    ensures
        own_identity(Some(worker), fresh_id, fresh_token) == worker,
        own_identity(None, fresh_id, fresh_token).id == fresh_id,
        own_identity(None, fresh_id, fresh_token).lease_token == fresh_token,
{
}

/// A registration is accepted under the lease that the supervisor names, if the supervisor speaks the
/// second version of the protocol. Another version is not compatible, and the lease that was given is
/// known, to be given back. Any other answer is invalid.
pub proof fn law_other_versions_are_not_accepted(response: ResponseView)
    ensures
        registration_result(response) is Accepted <==> response is Registered
            && response->Registered_protocol_version == Some(2u32),
        registration_result(response) is Invalid <==> !(response is Registered),
        registration_result(response) matches RegistrationView::Accepted(lease) ==> lease.id
            == response->Registered_id && lease.lease_token == response->Registered_lease_token,
        registration_result(response) matches RegistrationView::Incompatible { lease, message }
            ==> lease.id == response->Registered_id && lease.lease_token
            == response->Registered_lease_token && message
            == "incompatible codex supervisor protocol: expected "@ + text::decimal(2) + ", got "@
            + version_text(response->Registered_protocol_version),
{
}

/// A version is told by its number, and that there is none is told too.
pub proof fn law_version_is_told_by_its_number(version: u32)
    ensures
        version_text(Some(version)) == "Some("@ + text::decimal(version as nat) + ")"@,
        version_text(None) == "None"@,
{
}

} // verus!
