//! The identity that the supervisor hands to a worker on its command line.
//!
//! The identity stands on the command line and not in the environment, so that the processes a
//! worker starts do not inherit it. A damaged identity is an error and never an ordinary process.
use crate::ids::ProcessId;
use crate::{ids, text};
use vstd::prelude::*;

verus! {

/// The argument that makes a process the supervisor.
pub const DAEMON_ARG: &'static str = "--codex-supervisor-daemon";

/// The argument in front of a worker's process identity and lease token.
pub const SUPERVISOR_WORKER_ARG: &'static str = "--codex-supervisor-worker";

/// The lease that a worker was started under.
#[derive(Debug, Clone, Copy, PartialEq, Eq, Structural)]
pub struct WorkerIdentity {
    pub id: ProcessId,
    pub lease_token: ProcessId,
}

/// An argument of a process: text, or bytes that are not UTF-8.
#[derive(Debug, PartialEq, Eq)]
pub enum ProcessArg {
    Text(String),
    NonUtf8(Vec<u8>),
}

/// The view of [`ProcessArg`].
#[verifier::ext_equal]
pub enum ProcessArgView {
    Text(Seq<char>),
    NonUtf8(Seq<u8>),
}

impl View for ProcessArg {
    type V = ProcessArgView;

    open spec fn view(&self) -> ProcessArgView {
        match self {
            ProcessArg::Text(text) => ProcessArgView::Text(text@),
            ProcessArg::NonUtf8(bytes) => ProcessArgView::NonUtf8(bytes@),
        }
    }
}

impl Clone for ProcessArg {
    fn clone(&self) -> (r: Self)
        ensures
            r@ == self@,
    {
        match self {
            ProcessArg::Text(text) => ProcessArg::Text(text.clone()),
            ProcessArg::NonUtf8(bytes) => ProcessArg::NonUtf8(bytes.clone()),
        }
    }
}

/// The views of some arguments.
pub open spec fn arg_views(args: Seq<ProcessArg>) -> Seq<ProcessArgView> {
    Seq::new(args.len(), |i: int| args[i]@)
}

/// Why worker arguments are damaged. A value that is no UUID comes with what it was rejected with.
#[derive(Debug, PartialEq, Eq)]
pub enum WorkerArgsError {
    Duplicate,
    Incomplete,
    InvalidProcessId { value: String, cause: String },
    InvalidLeaseToken { value: String, cause: String },
}

/// The view of [`WorkerArgsError`].
#[verifier::ext_equal]
pub enum WorkerArgsErrorView {
    Duplicate,
    Incomplete,
    InvalidProcessId { value: Seq<char>, cause: Seq<char> },
    InvalidLeaseToken { value: Seq<char>, cause: Seq<char> },
}

impl View for WorkerArgsError {
    type V = WorkerArgsErrorView;

    open spec fn view(&self) -> WorkerArgsErrorView {
        match self {
            WorkerArgsError::Duplicate => WorkerArgsErrorView::Duplicate,
            WorkerArgsError::Incomplete => WorkerArgsErrorView::Incomplete,
            WorkerArgsError::InvalidProcessId { value, cause } =>
                WorkerArgsErrorView::InvalidProcessId { value: value@, cause: cause@ },
            WorkerArgsError::InvalidLeaseToken { value, cause } =>
                WorkerArgsErrorView::InvalidLeaseToken { value: value@, cause: cause@ },
        }
    }
}

impl WorkerArgsError {
    /// The error in words.
    pub fn message(&self) -> (r: String)
        ensures
            r@ == (match self@ {
                WorkerArgsErrorView::Duplicate => "duplicate --codex-supervisor-worker argument"@,
                WorkerArgsErrorView::Incomplete =>
                    "--codex-supervisor-worker requires a process id and lease token"@,
                WorkerArgsErrorView::InvalidProcessId { value, .. } =>
                    "invalid supervisor worker process id "@ + value,
                WorkerArgsErrorView::InvalidLeaseToken { value, .. } =>
                    "invalid supervisor worker lease token "@ + value,
            }),
    {
        match self {
            WorkerArgsError::Duplicate => "duplicate --codex-supervisor-worker argument".to_owned(),
            WorkerArgsError::Incomplete =>
                "--codex-supervisor-worker requires a process id and lease token".to_owned(),
            WorkerArgsError::InvalidProcessId { value, .. } =>
                "invalid supervisor worker process id ".to_owned().concat(value.as_str()),
            WorkerArgsError::InvalidLeaseToken { value, .. } =>
                "invalid supervisor worker lease token ".to_owned().concat(value.as_str()),
        }
    }

    /// What a value was rejected with, where one was rejected.
    pub fn cause(&self) -> (r: Option<&str>)
        ensures
            text::opt_str(r) == (match self@ {
                WorkerArgsErrorView::InvalidProcessId { cause, .. } => Some(cause),
                WorkerArgsErrorView::InvalidLeaseToken { cause, .. } => Some(cause),
                _ => None,
            }),
    {
        match self {
            WorkerArgsError::InvalidProcessId { cause, .. } => Some(cause.as_str()),
            WorkerArgsError::InvalidLeaseToken { cause, .. } => Some(cause.as_str()),
            _ => None,
        }
    }
}

/// The marker of a worker as an argument.
pub open spec fn worker_marker() -> ProcessArgView {
    ProcessArgView::Text(SUPERVISOR_WORKER_ARG@)
}

/// What the two arguments behind the marker say.
pub open spec fn parsed_identity(args: Seq<ProcessArgView>) -> Result<
    WorkerIdentity,
    WorkerArgsErrorView,
>
    recommends
        args.len() > 0,
{
    if args.len() < 3 || !(args[1] is Text) || !(args[2] is Text) {
        Err(WorkerArgsErrorView::Incomplete)
    } else {
        let id_value = args[1]->Text_0;
        let token_value = args[2]->Text_0;
        match ids::parsed_id(id_value) {
            None => Err(
                WorkerArgsErrorView::InvalidProcessId {
                    value: id_value,
                    cause: ids::id_error(id_value),
                },
            ),
            Some(id) => match ids::parsed_id(token_value) {
                None => Err(
                    WorkerArgsErrorView::InvalidLeaseToken {
                        value: token_value,
                        cause: ids::id_error(token_value),
                    },
                ),
                Some(lease_token) => Ok(WorkerIdentity { id, lease_token }),
            },
        }
    }
}

/// The identity in some arguments and the arguments without it. `seen` is an identity that stood
/// further to the front.
pub open spec fn parsed_args(
    args: Seq<ProcessArgView>,
    seen: Option<WorkerIdentity>,
) -> Result<(Option<WorkerIdentity>, Seq<ProcessArgView>), WorkerArgsErrorView>
    decreases args.len(),
{
    if args.len() == 0 {
        Ok((seen, Seq::empty()))
    } else if args[0] != worker_marker() {
        with_first(seq![args[0]], parsed_args(args.skip(1), seen))
    } else if seen is Some {
        Err(WorkerArgsErrorView::Duplicate)
    } else {
        match parsed_identity(args) {
            Err(error) => Err(error),
            Ok(identity) => parsed_args(args.skip(3), Some(identity)),
        }
    }
}

/// A result whose arguments have others in front of them.
pub open spec fn with_first(
    first: Seq<ProcessArgView>,
    rest: Result<(Option<WorkerIdentity>, Seq<ProcessArgView>), WorkerArgsErrorView>,
) -> Result<(Option<WorkerIdentity>, Seq<ProcessArgView>), WorkerArgsErrorView> {
    match rest {
        Ok((identity, args)) => Ok((identity, first + args)),
        Err(error) => Err(error),
    }
}

/// The view of parsed arguments.
pub open spec fn parsed_view(
    result: Result<(Option<WorkerIdentity>, Vec<ProcessArg>), WorkerArgsError>,
) -> Result<(Option<WorkerIdentity>, Seq<ProcessArgView>), WorkerArgsErrorView> {
    match result {
        Ok((identity, args)) => Ok((identity, arg_views(args@))),
        Err(error) => Err(error@),
    }
}

/// Whether an argument is the marker of a worker.
fn is_marker(arg: &ProcessArg) -> (r: bool)
    ensures
        r == (arg@ == worker_marker()),
{
    match arg {
        ProcessArg::Text(text) => text::text_eq(text.as_str(), SUPERVISOR_WORKER_ARG),
        ProcessArg::NonUtf8(_) => false,
    }
}

/// Reads the identity behind the marker at `index`.
fn identity_at(args: &Vec<ProcessArg>, index: usize) -> (r: Result<WorkerIdentity, WorkerArgsError>)
    requires
        index < args@.len(),
    ensures
        match r {
            Ok(identity) => parsed_identity(arg_views(args@).skip(index as int)) == Ok::<
                WorkerIdentity,
                WorkerArgsErrorView,
            >(identity) && index + 3 <= args@.len(),
            Err(error) => parsed_identity(arg_views(args@).skip(index as int)) == Err::<
                WorkerIdentity,
                WorkerArgsErrorView,
            >(error@),
        },
{
    let ghost rest = arg_views(args@).skip(index as int);
    if args.len() - index < 3 {
        return Err(WorkerArgsError::Incomplete);
    }
    assert(rest[1] == args@[index + 1]@);
    assert(rest[2] == args@[index + 2]@);
    match (&args[index + 1], &args[index + 2]) {
        (ProcessArg::Text(id_value), ProcessArg::Text(token_value)) => {
            match ids::parse_id(id_value.as_str()) {
                Err(cause) => Err(
                    WorkerArgsError::InvalidProcessId { value: id_value.clone(), cause },
                ),
                Ok(id) => match ids::parse_id(token_value.as_str()) {
                    Err(cause) => Err(
                        WorkerArgsError::InvalidLeaseToken { value: token_value.clone(), cause },
                    ),
                    Ok(lease_token) => Ok(WorkerIdentity { id, lease_token }),
                },
            }
        },
        _ => Err(WorkerArgsError::Incomplete),
    }
}

/// Separates the identity of a worker from the rest of its arguments.
pub fn parse_worker_args(args: &Vec<ProcessArg>) -> (r: Result<
    (Option<WorkerIdentity>, Vec<ProcessArg>),
    WorkerArgsError,
>)
    ensures
        parsed_view(r) == parsed_args(arg_views(args@), None),
{
    let ghost all = arg_views(args@);
    let mut filtered: Vec<ProcessArg> = Vec::new();
    let mut identity: Option<WorkerIdentity> = None;
    let mut index: usize = 0;
    proof {
        assert(all.skip(0) =~= all);
        lemma_with_nothing_first(parsed_args(all, None));
        assert(arg_views(filtered@) =~= Seq::empty());
    }
    while index < args.len()
        invariant
            index <= args@.len(),
            all == arg_views(args@),
            parsed_args(all, None) == with_first(
                arg_views(filtered@),
                parsed_args(all.skip(index as int), identity),
            ),
        decreases args@.len() - index,
    {
        let ghost rest = all.skip(index as int);
        let ghost before = arg_views(filtered@);
        assert(rest[0] == args@[index as int]@);
        if !is_marker(&args[index]) {
            filtered.push(args[index].clone());
            proof {
                assert(rest.skip(1) =~= all.skip(index + 1));
                assert(arg_views(filtered@) =~= before + seq![rest[0]]);
                lemma_with_first_twice(before, seq![rest[0]], parsed_args(rest.skip(1), identity));
            }
            index = index + 1;
        } else {
            if identity.is_some() {
                return Err(WorkerArgsError::Duplicate);
            }
            match identity_at(args, index) {
                Ok(found) => {
                    assert(rest.skip(3) =~= all.skip(index + 3));
                    identity = Some(found);
                },
                Err(error) => {
                    return Err(error);
                },
            }
            index = index + 3;
        }
    }
    assert(all.skip(index as int) =~= Seq::empty());
    assert(arg_views(filtered@) + Seq::empty() =~= arg_views(filtered@));
    Ok((identity, filtered))
}

proof fn lemma_with_nothing_first(
    result: Result<(Option<WorkerIdentity>, Seq<ProcessArgView>), WorkerArgsErrorView>,
)
    ensures
        with_first(Seq::empty(), result) == result,
{
    if let Ok((_, args)) = result {
        assert(Seq::<ProcessArgView>::empty() + args =~= args);
    }
}

proof fn lemma_with_first_twice(
    a: Seq<ProcessArgView>,
    b: Seq<ProcessArgView>,
    result: Result<(Option<WorkerIdentity>, Seq<ProcessArgView>), WorkerArgsErrorView>,
)
    ensures
        with_first(a, with_first(b, result)) == with_first(a + b, result),
{
    if let Ok((_, args)) = result {
        assert(a + (b + args) =~= (a + b) + args);
    }
}

/// The identity of a process, if its arguments make it a worker.
pub fn worker_identity(args: &Vec<ProcessArg>) -> (r: Result<
    Option<WorkerIdentity>,
    WorkerArgsError,
>)
    ensures
        match r {
            Ok(identity) => parsed_args(arg_views(args@), None) matches Ok((found, _)) && found
                == identity,
            Err(error) => parsed_args(arg_views(args@), None) matches Err(found) && found == error@,
        },
{
    match parse_worker_args(args) {
        Ok((identity, _)) => Ok(identity),
        Err(error) => Err(error),
    }
}

/// The arguments of a process without the identity of a worker.
pub fn filtered_process_args(args: &Vec<ProcessArg>) -> (r: Result<
    Vec<ProcessArg>,
    WorkerArgsError,
>)
    ensures
        match r {
            Ok(rest) => parsed_args(arg_views(args@), None) matches Ok((_, found)) && found
                == arg_views(rest@),
            Err(error) => parsed_args(arg_views(args@), None) matches Err(found) && found == error@,
        },
{
    match parse_worker_args(args) {
        Ok((_, rest)) => Ok(rest),
        Err(error) => Err(error),
    }
}

/// The arguments that start a worker under a lease.
pub open spec fn worker_arguments(
    identity: WorkerIdentity,
    args: Seq<Seq<char>>,
) -> Seq<Seq<char>> {
    seq![
        SUPERVISOR_WORKER_ARG@,
        ids::id_text(identity.id),
        ids::id_text(identity.lease_token),
    ] + args
}

/// Writes the arguments that start a worker under a lease.
pub fn worker_args(identity: WorkerIdentity, args: &Vec<String>) -> (r: Vec<String>)
    ensures
        text::texts(r@) == worker_arguments(identity, text::texts(args@)),
{
    let mut out: Vec<String> = Vec::new();
    out.push(SUPERVISOR_WORKER_ARG.to_owned());
    out.push(ids::id_to_text(identity.id));
    out.push(ids::id_to_text(identity.lease_token));
    let mut rest = text::clone_texts(args);
    out.append(&mut rest);
    assert(text::texts(out@) =~= worker_arguments(identity, text::texts(args@)));
    out
}

/// Texts as arguments.
pub open spec fn as_args(values: Seq<Seq<char>>) -> Seq<ProcessArgView> {
    Seq::new(values.len(), |i: int| ProcessArgView::Text(values[i]))
}

/// Arguments without a marker stay as they are.
pub proof fn law_ordinary_arguments_pass(args: Seq<ProcessArgView>, seen: Option<WorkerIdentity>)
    requires
        !args.contains(worker_marker()),
    ensures
        parsed_args(args, seen) == Ok::<
            (Option<WorkerIdentity>, Seq<ProcessArgView>),
            WorkerArgsErrorView,
        >((seen, args)),
    decreases args.len(),
{
    if args.len() > 0 {
        assert(args[0] != worker_marker());
        assert forall|i: int| 0 <= i < args.skip(1).len() implies args.skip(1)[i]
            != worker_marker() by {
            assert(args[i + 1] != worker_marker());
        }
        law_ordinary_arguments_pass(args.skip(1), seen);
        assert(seq![args[0]] + args.skip(1) =~= args);
    } else {
        assert(args =~= Seq::empty());
    }
}

/// A started worker reads back the identity it was started with and is left with the arguments it
/// was meant to get.
pub proof fn law_worker_reads_back_its_identity(
    program: Seq<char>,
    identity: WorkerIdentity,
    args: Seq<Seq<char>>,
)
    requires
        program != SUPERVISOR_WORKER_ARG@,
        !args.contains(SUPERVISOR_WORKER_ARG@),
    ensures
        parsed_args(as_args(seq![program] + worker_arguments(identity, args)), None) == Ok::<
            (Option<WorkerIdentity>, Seq<ProcessArgView>),
            WorkerArgsErrorView,
        >((Some(identity), as_args(seq![program] + args))),
{
    let all = as_args(seq![program] + worker_arguments(identity, args));
    let rest = all.skip(1);
    reveal_with_fuel(parsed_args, 3);
    assert(rest[0] == worker_marker());
    assert(rest[1] == ProcessArgView::Text(ids::id_text(identity.id)));
    assert(rest[2] == ProcessArgView::Text(ids::id_text(identity.lease_token)));
    ids::law_id_text_round_trip(identity.id);
    ids::law_id_text_round_trip(identity.lease_token);
    assert(rest.skip(3) =~= as_args(args));
    assert forall|i: int| 0 <= i < as_args(args).len() implies as_args(args)[i]
        != worker_marker() by {
        assert(args[i] != SUPERVISOR_WORKER_ARG@);
    }
    law_ordinary_arguments_pass(as_args(args), Some(identity));
    assert(all[0] == ProcessArgView::Text(program));
    assert(seq![ProcessArgView::Text(program)] + as_args(args) =~= as_args(seq![program] + args));
}

/// A second marker is an error, whatever stands between the two.
pub proof fn law_second_identity_is_refused(
    args: Seq<ProcessArgView>,
    identity: WorkerIdentity,
)
    requires
        args.contains(worker_marker()),
    ensures
        parsed_args(args, Some(identity)) == Err::<
            (Option<WorkerIdentity>, Seq<ProcessArgView>),
            WorkerArgsErrorView,
        >(WorkerArgsErrorView::Duplicate),
    decreases args.len(),
{
    if args[0] != worker_marker() {
        let k = args.index_of(worker_marker());
        assert(args.skip(1)[k - 1] == worker_marker());
        law_second_identity_is_refused(args.skip(1), identity);
    }
}

/// Whether a process is started as the supervisor: by its first argument behind its name.
pub fn starts_daemon(args: &Vec<ProcessArg>) -> (r: bool)
    ensures
        r == (args@.len() > 1 && args@[1]@ == ProcessArgView::Text(DAEMON_ARG@)),
{
    if args.len() < 2 {
        return false;
    }
    match &args[1] {
        ProcessArg::Text(value) => text::text_eq(value.as_str(), DAEMON_ARG),
        ProcessArg::NonUtf8(_) => false,
    }
}

/// An argument as it is shown.
pub open spec fn shown_arg(arg: ProcessArgView) -> Seq<char> {
    match arg {
        ProcessArgView::Text(text) => text,
        ProcessArgView::NonUtf8(bytes) => text::lossy_text(bytes),
    }
}

/// Some arguments as they are shown.
pub open spec fn shown_args(args: Seq<ProcessArgView>) -> Seq<Seq<char>> {
    Seq::new(args.len(), |i: int| shown_arg(args[i]))
}

/// Shows an argument.
pub fn show_arg(arg: &ProcessArg) -> (r: String)
    ensures
        r@ == shown_arg(arg@),
{
    match arg {
        ProcessArg::Text(text) => text.clone(),
        ProcessArg::NonUtf8(bytes) => text::bytes_to_text(bytes),
    }
}

/// Shows the arguments from `from` on.
pub fn show_args(args: &Vec<ProcessArg>, from: usize) -> (r: Vec<String>)
    requires
        from <= args@.len(),
    ensures
        text::texts(r@) == shown_args(arg_views(args@).skip(from as int)),
{
    let mut out: Vec<String> = Vec::new();
    let mut i: usize = from;
    while i < args.len()
        invariant
            from <= i <= args@.len(),
            out@.len() == i - from,
            forall|j: int| 0 <= j < i - from ==> (#[trigger] out@[j])@ == shown_arg(args@[from + j]@),
        decreases args@.len() - i,
    {
        out.push(show_arg(&args[i]));
        i = i + 1;
    }
    assert(text::texts(out@) =~= shown_args(arg_views(args@).skip(from as int)));
    out
}

/// A marker has to be followed by two texts that are identities. What is wrong with them is named: that
/// one of them is missing or no text, or which of them is no identity.
pub proof fn law_damaged_identity_is_refused(
    rest: Seq<ProcessArgView>,
    id: Seq<char>,
    token: Seq<char>,
)
    ensures
        rest.len() < 2 ==> parsed_args(seq![worker_marker()] + rest, None) == Err::<
            (Option<WorkerIdentity>, Seq<ProcessArgView>),
            WorkerArgsErrorView,
        >(WorkerArgsErrorView::Incomplete),
        rest.len() >= 2 && (rest[0] is NonUtf8 || rest[1] is NonUtf8) ==> parsed_args(
            seq![worker_marker()] + rest,
            None,
        ) == Err::<(Option<WorkerIdentity>, Seq<ProcessArgView>), WorkerArgsErrorView>(
            WorkerArgsErrorView::Incomplete,
        ),
        rest.len() >= 2 && rest[0] == ProcessArgView::Text(id) && rest[1] == ProcessArgView::Text(
            token,
        ) && ids::parsed_id(id) is None ==> (parsed_args(seq![worker_marker()] + rest, None)
            matches Err(WorkerArgsErrorView::InvalidProcessId { value, .. }) && value == id),
        rest.len() >= 2 && rest[0] == ProcessArgView::Text(id) && rest[1] == ProcessArgView::Text(
            token,
        ) && ids::parsed_id(id) is Some && ids::parsed_id(token) is None ==> (parsed_args(
            seq![worker_marker()] + rest,
            None,
        ) matches Err(WorkerArgsErrorView::InvalidLeaseToken { value, .. }) && value == token),
{
    let all = seq![worker_marker()] + rest;
    assert(all[0] == worker_marker());
    if rest.len() >= 2 {
        assert(all[1] == rest[0]);
        assert(all[2] == rest[1]);
    }
}

/// A text is shown as it is.
pub proof fn law_text_arguments_are_shown_as_they_are(args: Seq<Seq<char>>)
    ensures
        shown_args(as_args(args)) == args,
{
    assert(shown_args(as_args(args)) =~= args);
}

} // verus!
