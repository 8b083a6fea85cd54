//! What is printed when a session has ended.
use crate::text;
use vstd::prelude::*;

verus! {

/// Why a session ended.
#[derive(Debug, PartialEq, Eq)]
pub enum ExitReason {
    UserRequested,
    Fatal(String),
}

/// What is known of a session that has ended.
#[derive(Debug, PartialEq, Eq)]
pub struct AppExitInfo {
    /// The tokens that were used, in words, where any were.
    pub token_usage: Option<String>,
    pub thread_id: Option<String>,
    /// The command that continues the session.
    pub resume_hint: Option<String>,
    pub exit_reason: ExitReason,
}

/// A command, in cyan where the terminal shows colors.
pub open spec fn shown_command(command: Seq<char>, color_enabled: bool) -> Seq<char> {
    if color_enabled {
        "\x1b[36m"@ + command + "\x1b[39m"@
    } else {
        command
    }
}

/// The line on the usage.
pub open spec fn usage_lines(info: AppExitInfo) -> Seq<Seq<char>> {
    match info.token_usage {
        Some(usage) => seq![usage@],
        None => Seq::empty(),
    }
}

/// The line on how to find the session again. A session that cannot be continued by a command is
/// named where it ended with an error.
pub open spec fn session_lines(info: AppExitInfo, color_enabled: bool) -> Seq<Seq<char>> {
    match (info.resume_hint, info.thread_id) {
        (Some(command), _) => seq![
            "To continue this session, run "@ + shown_command(command@, color_enabled),
        ],
        (None, Some(thread_id)) => if info.exit_reason is Fatal {
            seq!["Session ID: "@ + thread_id@]
        } else {
            Seq::empty()
        },
        (None, None) => Seq::empty(),
    }
}

/// Formats what is printed at the end.
pub fn format_exit_messages(exit_info: &AppExitInfo, color_enabled: bool) -> (r: Vec<String>)
    ensures
        text::texts(r@) == usage_lines(*exit_info) + session_lines(*exit_info, color_enabled),
{
    let mut lines: Vec<String> = Vec::new();
    if let Some(usage) = &exit_info.token_usage {
        lines.push(usage.clone());
    }
    let ghost usage = lines@;
    assert(text::texts(usage) =~= usage_lines(*exit_info));
    let is_fatal = match &exit_info.exit_reason {
        ExitReason::Fatal(_) => true,
        ExitReason::UserRequested => false,
    };
    if let Some(command) = &exit_info.resume_hint {
        let shown = if color_enabled {
            "\x1b[36m".to_owned().concat(command.as_str()).concat("\x1b[39m")
        } else {
            command.clone()
        };
        lines.push("To continue this session, run ".to_owned().concat(shown.as_str()));
    } else if is_fatal {
        if let Some(thread_id) = &exit_info.thread_id {
            lines.push("Session ID: ".to_owned().concat(thread_id.as_str()));
        }
    }
    assert(text::texts(lines@) =~= text::texts(usage) + session_lines(*exit_info, color_enabled));
    lines
}

/// At the end the usage is told first, where there is one. A session that can be continued is told with
/// its command; one that cannot is named only where it ended with an error. Colors change how the
/// command looks, and nothing else.
pub proof fn law_ended_session_can_be_found_again(info: AppExitInfo, color_enabled: bool)
    ensures
        info.token_usage matches Some(usage) ==> usage_lines(info) == seq![usage@],
        info.token_usage is None ==> usage_lines(info).len() == 0,
        info.resume_hint matches Some(command) ==> session_lines(info, false) == seq![
            "To continue this session, run "@ + command@,
        ],
        info.resume_hint matches Some(command) ==> session_lines(info, true) == seq![
            "To continue this session, run "@ + ("\x1b[36m"@ + command@ + "\x1b[39m"@),
        ],
        info.resume_hint is None && info.exit_reason is Fatal && info.thread_id is Some
            ==> session_lines(info, color_enabled) == seq![
            "Session ID: "@ + info.thread_id.unwrap()@,
        ],
        info.resume_hint is None && info.exit_reason is UserRequested ==> session_lines(
            info,
            color_enabled,
        ).len() == 0,
        info.resume_hint is None && info.thread_id is None ==> session_lines(
            info,
            color_enabled,
        ).len() == 0,
{
}

} // verus!
