//! Starting and stopping worker processes: the decisions around the system calls.
use crate::identity::WorkerIdentity;
use crate::protocol::SpawnWorkerRequest;
use crate::{identity, text};
use vstd::prelude::*;

verus! {

/// Why a worker cannot be started, if it cannot.
pub open spec fn spawn_refusal(
    executable: Seq<char>,
    cwd: Seq<char>,
    executable_is_file: bool,
    cwd_is_dir: bool,
) -> Option<Seq<char>> {
    if !executable_is_file {
        Some("worker executable does not exist: "@ + executable)
    } else if !cwd_is_dir {
        Some("worker working directory does not exist: "@ + cwd)
    } else {
        None
    }
}

/// Decides whether a worker can be started, and with which arguments.
pub fn plan_spawn(
    request: &SpawnWorkerRequest,
    executable_is_file: bool,
    cwd_is_dir: bool,
    worker: WorkerIdentity,
) -> (r: Result<Vec<String>, String>)
    ensures
        match spawn_refusal(request.executable@, request.cwd@, executable_is_file, cwd_is_dir) {
            Some(reason) => r is Err && r->Err_0@ == reason,
            None => r is Ok && text::texts(r->Ok_0@) == identity::worker_arguments(
                worker,
                text::texts(request.args@),
            ),
        },
{
    if !executable_is_file {
        return Err(
            "worker executable does not exist: ".to_owned().concat(request.executable.as_str()),
        );
    }
    if !cwd_is_dir {
        return Err(
            "worker working directory does not exist: ".to_owned().concat(request.cwd.as_str()),
        );
    }
    Ok(identity::worker_args(worker, &request.args))
}

/// The process number that the system takes, if the number is one.
pub fn system_pid(pid: u32) -> (r: Option<i32>)
    ensures
        match r {
            Some(number) => number == pid,
            None => pid > i32::MAX,
        },
{
    if pid <= 0x7fff_ffff {
        Some(pid as i32)
    } else {
        None
    }
}

/// What a signal is sent to: the whole group of a process that leads one, and the process alone
/// otherwise. The group of a terminal is thus never hit.
pub fn signal_target(pid: i32, group: i32) -> (r: i32)
    requires
        pid > i32::MIN,
    ensures
        r == (if group == pid {
            -pid
        } else {
            pid as int
        }),
{
    if group == pid {
        -pid
    } else {
        pid
    }
}

/// Whether a probe with the empty signal shows a living process: it succeeded, or was merely not
/// permitted.
pub fn probe_shows_life(result: i32, not_permitted: bool) -> (r: bool)
    ensures
        r == (result == 0 || not_permitted),
{
    result == 0 || not_permitted
}

/// Whether the current process makes a group of its own: only where it has no terminal.
pub fn needs_own_group(stdin_terminal: bool, stdout_terminal: bool, stderr_terminal: bool) -> (r:
    bool)
    ensures
        r == !(stdin_terminal || stdout_terminal || stderr_terminal),
{
    !stdin_terminal && !stdout_terminal && !stderr_terminal
}

/// A worker is started exactly if its program is a file and its directory is there. What is missing is
/// named, the program first.
pub proof fn law_worker_needs_its_program_and_its_directory(
    executable: Seq<char>,
    cwd: Seq<char>,
    executable_is_file: bool,
    cwd_is_dir: bool,
)
    ensures
        spawn_refusal(executable, cwd, executable_is_file, cwd_is_dir) is None
            <==> executable_is_file && cwd_is_dir,
        !executable_is_file ==> spawn_refusal(executable, cwd, executable_is_file, cwd_is_dir)
            == Some("worker executable does not exist: "@ + executable),
        executable_is_file && !cwd_is_dir ==> spawn_refusal(
            executable,
            cwd,
            executable_is_file,
            cwd_is_dir,
        ) == Some("worker working directory does not exist: "@ + cwd),
{
}

} // verus!
