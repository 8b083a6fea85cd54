//! Running a command in a terminal window of its own on Windows.
use crate::{ids, text, windows_path};
use std::collections::HashMap;
use vstd::prelude::*;

verus! {

broadcast use vstd::std_specs::hash::group_hash_axioms;

/// How many processes are looked at on the way to a shell that started this one.
pub const MAX_PARENT_PROCESS_DEPTH: usize = 32;

/// The flag with which a process gets a console of its own.
pub const CREATE_NEW_CONSOLE: u32 = 16;

/// A shell.
#[derive(Debug, Clone, Copy, PartialEq, Eq, Structural)]
pub enum ShellKind {
    Cmd,
    WindowsPowerShell,
    PowerShellCore,
}

impl ShellKind {
    /// The name of the shell's program.
    pub open spec fn program_name(self) -> Seq<char> {
        match self {
            ShellKind::Cmd => "cmd.exe"@,
            ShellKind::WindowsPowerShell => "powershell.exe"@,
            ShellKind::PowerShellCore => "pwsh.exe"@,
        }
    }

    /// The name of the shell's program.
    pub fn executable(self) -> (r: &'static str)
        ensures
            r@ == self.program_name(),
    {
        match self {
            ShellKind::Cmd => "cmd.exe",
            ShellKind::WindowsPowerShell => "powershell.exe",
            ShellKind::PowerShellCore => "pwsh.exe",
        }
    }
}

/// A process to start.
#[derive(Debug, PartialEq, Eq)]
pub struct LaunchSpec {
    pub program: String,
    pub args: Vec<String>,
    pub cwd: String,
    pub creation_flags: u32,
}

/// The view of [`LaunchSpec`].
#[verifier::ext_equal]
pub struct LaunchSpecView {
    pub program: Seq<char>,
    pub args: Seq<Seq<char>>,
    pub cwd: Seq<char>,
    pub creation_flags: u32,
}

impl View for LaunchSpec {
    type V = LaunchSpecView;

    open spec fn view(&self) -> LaunchSpecView {
        LaunchSpecView {
            program: self.program@,
            args: text::texts(self.args@),
            cwd: self.cwd@,
            creation_flags: self.creation_flags,
        }
    }
}

/// A running process.
#[derive(Debug, PartialEq, Eq)]
pub struct ProcessInfo {
    pub parent_process_id: u32,
    pub executable_name: String,
}

/// The arguments with which a shell runs a command and stays open.
pub open spec fn shell_arguments(shell: ShellKind, command: Seq<char>) -> Seq<Seq<char>> {
    match shell {
        ShellKind::Cmd => seq!["/k"@, command],
        _ => seq!["-NoExit"@, "-Command"@, command],
    }
}

/// Starts a shell in a console of its own. `program` is where the shell was found.
pub fn build_direct_shell_spec(shell: ShellKind, program: &str, command: &str, cwd: &str) -> (r:
    LaunchSpec)
    ensures
        r@ == (LaunchSpecView {
            program: program@,
            args: shell_arguments(shell, command@),
            cwd: cwd@,
            creation_flags: CREATE_NEW_CONSOLE,
        }),
{
    let mut args: Vec<String> = Vec::new();
    match shell {
        ShellKind::Cmd => {
            args.push("/k".to_owned());
        },
        _ => {
            args.push("-NoExit".to_owned());
            args.push("-Command".to_owned());
        },
    }
    args.push(command.to_owned());
    assert(text::texts(args@) =~= shell_arguments(shell, command@));
    LaunchSpec {
        program: program.to_owned(),
        args,
        cwd: cwd.to_owned(),
        creation_flags: CREATE_NEW_CONSOLE,
    }
}

/// Opens a tab of Windows Terminal that runs a wrapper. `program` is where Windows Terminal was
/// found. No window is named: the tab opens in the one that is in use.
pub fn build_windows_terminal_spec(program: &str, wrapper_path: &str, cwd: &str) -> (r: LaunchSpec)
    ensures
        r@ == (LaunchSpecView {
            program: program@,
            args: seq!["new-tab"@, "-d"@, cwd@, "--"@, wrapper_path@],
            cwd: cwd@,
            creation_flags: 0,
        }),
{
    let mut args: Vec<String> = Vec::new();
    args.push("new-tab".to_owned());
    args.push("-d".to_owned());
    args.push(cwd.to_owned());
    args.push("--".to_owned());
    args.push(wrapper_path.to_owned());
    assert(text::texts(args@) =~= seq!["new-tab"@, "-d"@, cwd@, "--"@, wrapper_path@]);
    LaunchSpec { program: program.to_owned(), args, cwd: cwd.to_owned(), creation_flags: 0 }
}

/// A character in UTF-16: one unit, or a pair of surrogates.
pub open spec fn utf16_char(c: char) -> Seq<u16> {
    let n = c as int;
    if n < 0x10000 {
        seq![n as u16]
    } else {
        let m = n - 0x10000;
        seq![(0xD800 + m / 1024) as u16, (0xDC00 + m % 1024) as u16]
    }
}

/// A text in UTF-16.
pub open spec fn utf16_units(s: Seq<char>) -> Seq<u16>
    decreases s.len(),
{
    if s.len() == 0 {
        Seq::empty()
    } else {
        utf16_char(s[0]) + utf16_units(s.drop_first())
    }
}

/// The text that is well-formed UTF-16.
pub open spec fn utf16_text(units: Seq<u16>) -> Option<Seq<char>>
    decreases units.len(),
{
    if units.len() == 0 {
        Some(Seq::empty())
    } else {
        let first = units[0] as int;
        if first < 0xD800 || 0xE000 <= first {
            match utf16_text(units.skip(1)) {
                Some(rest) => Some(seq![first as char] + rest),
                None => None,
            }
        } else if first < 0xDC00 && units.len() >= 2 && 0xDC00 <= units[1] < 0xE000 {
            match utf16_text(units.skip(2)) {
                Some(rest) => Some(
                    seq![(0x10000 + (first - 0xD800) * 1024 + (units[1] - 0xDC00)) as char] + rest,
                ),
                None => None,
            }
        } else {
            None
        }
    }
}

/// Units as bytes, the low byte first.
pub open spec fn little_endian(units: Seq<u16>) -> Seq<u8>
    decreases units.len(),
{
    if units.len() == 0 {
        Seq::empty()
    } else {
        seq![(units[0] % 256) as u8, (units[0] / 256) as u8] + little_endian(units.drop_first())
    }
}

/// The units that bytes stand for, the low byte first.
pub open spec fn from_little_endian(bytes: Seq<u8>) -> Seq<u16>
    decreases bytes.len(),
{
    if bytes.len() < 2 {
        Seq::empty()
    } else {
        seq![(bytes[0] + bytes[1] * 256) as u16] + from_little_endian(bytes.skip(2))
    }
}

/// The character of six bits.
pub open spec fn sextet_char(n: int) -> char {
    if n < 26 {
        (65 + n) as char
    } else if n < 52 {
        (97 + n - 26) as char
    } else if n < 62 {
        (48 + n - 52) as char
    } else if n == 62 {
        '+'
    } else {
        '/'
    }
}

/// Bytes in base64 with the standard alphabet and padding: four characters for three bytes.
pub open spec fn base64_text(bytes: Seq<u8>) -> Seq<char>
    decreases bytes.len(),
{
    if bytes.len() == 0 {
        Seq::empty()
    } else {
        let a = bytes[0] as int;
        let b = if bytes.len() > 1 {
            bytes[1] as int
        } else {
            0
        };
        let c = if bytes.len() > 2 {
            bytes[2] as int
        } else {
            0
        };
        let group = seq![
            sextet_char(a / 4),
            sextet_char((a % 4) * 16 + b / 16),
            if bytes.len() > 1 {
                sextet_char((b % 16) * 4 + c / 64)
            } else {
                '='
            },
            if bytes.len() > 2 {
                sextet_char(c % 64)
            } else {
                '='
            },
        ];
        if bytes.len() <= 3 {
            group
        } else {
            group + base64_text(bytes.skip(3))
        }
    }
}

/// The six bits of a character.
pub open spec fn sextet_value(c: char) -> int {
    if 'A' <= c <= 'Z' {
        c as int - 65
    } else if 'a' <= c <= 'z' {
        c as int - 97 + 26
    } else if '0' <= c <= '9' {
        c as int - 48 + 52
    } else if c == '+' {
        62
    } else {
        63
    }
}

/// The bytes that base64 stands for.
pub open spec fn base64_bytes(s: Seq<char>) -> Seq<u8>
    decreases s.len(),
{
    if s.len() < 4 {
        Seq::empty()
    } else {
        let a = sextet_value(s[0]);
        let b = sextet_value(s[1]);
        let c = sextet_value(s[2]);
        let d = sextet_value(s[3]);
        let first = (a * 4 + b / 16) as u8;
        let second = ((b % 16) * 16 + c / 4) as u8;
        if s[2] == '=' {
            seq![first]
        } else if s[3] == '=' {
            seq![first, second]
        } else {
            seq![first, second, ((c % 4) * 64 + d) as u8] + base64_bytes(s.skip(4))
        }
    }
}

/// Whether the base64 of so many bytes fits in memory.
pub open spec fn fits_encoded(count: nat) -> bool {
    (count / 3 + 1) * 4 <= isize::MAX
}

/// `base64`'s `STANDARD.encode` writes base64 with the standard alphabet and padding.
#[verifier::external_body]
fn encode_base64(bytes: &Vec<u8>) -> (r: String)
    requires
        fits_encoded(bytes@.len()),
    ensures
        r@ == base64_text(bytes@),
{
    base64::Engine::encode(&base64::engine::general_purpose::STANDARD, bytes)
}

fn push_utf16(out: &mut Vec<u16>, c: char)
    ensures
        final(out)@ == old(out)@ + utf16_char(c),
{
    let n: u32 = c as u32;
    if n < 0x10000 {
        out.push(n as u16);
    } else {
        let m: u32 = n - 0x10000;
        out.push((0xD800 + m / 1024) as u16);
        out.push((0xDC00 + m % 1024) as u16);
    }
    assert(out@ =~= old(out)@ + utf16_char(c));
}

/// Writes a text in UTF-16.
pub fn encode_utf16(s: &str) -> (r: Vec<u16>)
    ensures
        r@ == utf16_units(s@),
{
    let chars = text::to_chars(s);
    let mut out: Vec<u16> = Vec::new();
    let mut i: usize = 0;
    proof {
        assert(chars@.skip(0) =~= chars@);
        assert(out@ + utf16_units(chars@) =~= utf16_units(chars@));
    }
    while i < chars.len()
        invariant
            i <= chars@.len(),
            out@ + utf16_units(chars@.skip(i as int)) == utf16_units(chars@),
        decreases chars@.len() - i,
    {
        let ghost before = out@;
        let ghost rest = chars@.skip(i as int);
        push_utf16(&mut out, chars[i]);
        proof {
            assert(rest.drop_first() =~= chars@.skip(i + 1));
            assert(out@ + utf16_units(chars@.skip(i + 1)) =~= before + utf16_units(rest));
        }
        i = i + 1;
    }
    assert(out@ + Seq::<u16>::empty() =~= out@);
    out
}

/// Writes units as bytes, the low byte first.
pub fn to_little_endian(units: &Vec<u16>) -> (r: Vec<u8>)
    ensures
        r@ == little_endian(units@),
{
    let mut out: Vec<u8> = Vec::new();
    let mut i: usize = 0;
    proof {
        assert(units@.skip(0) =~= units@);
        assert(out@ + little_endian(units@) =~= little_endian(units@));
    }
    while i < units.len()
        invariant
            i <= units@.len(),
            out@ + little_endian(units@.skip(i as int)) == little_endian(units@),
        decreases units@.len() - i,
    {
        let ghost before = out@;
        let ghost rest = units@.skip(i as int);
        out.push((units[i] % 256) as u8);
        out.push((units[i] / 256) as u8);
        proof {
            assert(rest.drop_first() =~= units@.skip(i + 1));
            assert(out@ + little_endian(units@.skip(i + 1)) =~= before + little_endian(rest));
        }
        i = i + 1;
    }
    assert(out@ + Seq::<u8>::empty() =~= out@);
    out
}

/// A command as PowerShell takes it encoded: base64 of UTF-16, the low byte first.
pub open spec fn encoded_command(command: Seq<char>) -> Seq<char> {
    base64_text(little_endian(utf16_units(command)))
}

/// Whether an encoded command fits in memory.
pub open spec fn encodable(command: Seq<char>) -> bool {
    fits_encoded(2 * utf16_units(command).len())
}

proof fn lemma_little_endian_len(units: Seq<u16>)
    ensures
        little_endian(units).len() == 2 * units.len(),
    decreases units.len(),
{
    if units.len() > 0 {
        lemma_little_endian_len(units.drop_first());
    }
}

/// Encodes a command for PowerShell.
pub fn encode_powershell_command(command: &str) -> (r: String)
    requires
        encodable(command@),
    ensures
        r@ == encoded_command(command@),
{
    let units = encode_utf16(command);
    let bytes = to_little_endian(&units);
    proof {
        lemma_little_endian_len(units@);
    }
    encode_base64(&bytes)
}

/// What a wrapper holds: it runs the command and leaves the shell open.
pub open spec fn wrapper_content(
    shell: ShellKind,
    program: Seq<char>,
    command: Seq<char>,
) -> Seq<char> {
    match shell {
        ShellKind::Cmd => "@echo off\r\n"@ + command + "\r\ncmd.exe /d /k\r\n"@,
        _ => "@echo off\r\ncall \""@ + program + "\" -NoExit -EncodedCommand "@ + encoded_command(
            command,
        ) + "\r\n"@,
    }
}

/// Writes a wrapper. A command for PowerShell is encoded, so that nothing in it is read by the
/// wrapper's own shell.
pub fn build_shell_wrapper_content(shell: ShellKind, program: &str, command: &str) -> (r: String)
    requires
        shell == ShellKind::Cmd || encodable(command@),
    ensures
        r@ == wrapper_content(shell, program@, command@),
{
    match shell {
        ShellKind::Cmd => "@echo off\r\n".to_owned().concat(command).concat(
            "\r\ncmd.exe /d /k\r\n",
        ),
        _ => {
            let encoded = encode_powershell_command(command);
            "@echo off\r\ncall \"".to_owned().concat(program).concat(
                "\" -NoExit -EncodedCommand ",
            ).concat(encoded.as_str()).concat("\r\n")
        },
    }
}

/// The preferred shell, or else the one that started this process, or else the one that is always
/// there.
pub fn select_shell(preferred_shell: Option<ShellKind>, parent_shell: Option<ShellKind>) -> (r:
    ShellKind)
    ensures
        r == (match (preferred_shell, parent_shell) {
            (Some(shell), _) => shell,
            (None, Some(shell)) => shell,
            (None, None) => ShellKind::Cmd,
        }),
{
    match preferred_shell {
        Some(shell) => shell,
        None => match parent_shell {
            Some(shell) => shell,
            None => ShellKind::Cmd,
        },
    }
}

/// A text in ASCII lower case.
pub open spec fn lower_case(s: Seq<char>) -> Seq<char> {
    Seq::new(s.len(), |i: int| ids::ascii_lower(s[i]))
}

/// The shell that a program is, whatever the case of its name. A path that ends in no file is taken
/// as a whole.
pub open spec fn shell_of(path: Seq<char>) -> Option<ShellKind> {
    let name = lower_case(
        match windows_path::file_name(path) {
            Some(name) => name,
            None => path,
        },
    );
    if name == "cmd.exe"@ {
        Some(ShellKind::Cmd)
    } else if name == "powershell.exe"@ {
        Some(ShellKind::WindowsPowerShell)
    } else if name == "pwsh.exe"@ {
        Some(ShellKind::PowerShellCore)
    } else {
        None
    }
}

fn lower_case_text(s: &str) -> (r: String)
    ensures
        r@ == lower_case(s@),
{
    let chars = text::to_chars(s);
    let mut out = String::new();
    let mut i: usize = 0;
    while i < chars.len()
        invariant
            i <= chars@.len(),
            out@.len() == i,
            forall|j: int| 0 <= j < i ==> (#[trigger] out@[j]) == ids::ascii_lower(chars@[j]),
        decreases chars@.len() - i,
    {
        let c: char = chars[i];
        let lower: char = ids::to_ascii_lower(c);
        out.push(lower);
        i = i + 1;
    }
    assert(out@ =~= lower_case(s@));
    out
}

/// Recognises a shell by the name of its program.
pub fn shell_kind_from_process_name(name: &str) -> (r: Option<ShellKind>)
    ensures
        r == shell_of(name@),
{
    let name = match windows_path::file_name_text(name) {
        Some(file_name) => lower_case_text(file_name.as_str()),
        None => lower_case_text(name),
    };
    if text::text_eq(name.as_str(), "cmd.exe") {
        Some(ShellKind::Cmd)
    } else if text::text_eq(name.as_str(), "powershell.exe") {
        Some(ShellKind::WindowsPowerShell)
    } else if text::text_eq(name.as_str(), "pwsh.exe") {
        Some(ShellKind::PowerShellCore)
    } else {
        None
    }
}

/// The first shell among a process and those that started it, within so many processes.
pub open spec fn ancestor_shell(
    processes: Map<u32, ProcessInfo>,
    process_id: u32,
    depth: nat,
) -> Option<ShellKind>
    decreases depth,
{
    if depth == 0 || !processes.contains_key(process_id) {
        None
    } else {
        let process = processes[process_id];
        match shell_of(process.executable_name@) {
            Some(shell) => Some(shell),
            None => if process.parent_process_id == process_id {
                None
            } else {
                ancestor_shell(processes, process.parent_process_id, (depth - 1) as nat)
            },
        }
    }
}

/// Finds the shell that started a process. Process identifiers are used again, so the processes may
/// form a circle: the walk is bounded.
pub fn detect_parent_shell(processes: &HashMap<u32, ProcessInfo>, current_process_id: u32) -> (r:
    Option<ShellKind>)
    ensures
        r == ancestor_shell(processes@, current_process_id, MAX_PARENT_PROCESS_DEPTH as nat),
{
    let mut process_id: u32 = current_process_id;
    let mut depth: usize = 0;
    while depth < MAX_PARENT_PROCESS_DEPTH
        invariant
            depth <= MAX_PARENT_PROCESS_DEPTH,
            ancestor_shell(processes@, current_process_id, MAX_PARENT_PROCESS_DEPTH as nat)
                == ancestor_shell(
                processes@,
                process_id,
                (MAX_PARENT_PROCESS_DEPTH - depth) as nat,
            ),
        decreases MAX_PARENT_PROCESS_DEPTH - depth,
    {
        let process = match processes.get(&process_id) {
            Some(process) => process,
            None => {
                return None;
            },
        };
        if let Some(shell) = shell_kind_from_process_name(process.executable_name.as_str()) {
            return Some(shell);
        }
        if process.parent_process_id == process_id {
            return None;
        }
        process_id = process.parent_process_id;
        depth = depth + 1;
    }
    None
}

/// The text that units stand for, with replacement characters where they are not UTF-16.
pub uninterp spec fn lossy_utf16(units: Seq<u16>) -> Seq<char>;

/// `String::from_utf16_lossy` reads units as text and puts replacement characters where they are
/// not UTF-16. UTF-16 is read as what it encodes; else the text is named and not stated further.
#[verifier::external_body]
fn units_to_text(units: &Vec<u16>) -> (r: String)
    ensures
        r@ == lossy_utf16(units@),
        utf16_text(units@) matches Some(s) ==> r@ == s,
{
    String::from_utf16_lossy(units)
}

/// The units before the first zero.
pub open spec fn before_zero(units: Seq<u16>) -> Seq<u16>
    decreases units.len(),
{
    if units.len() == 0 || units[0] == 0 {
        Seq::empty()
    } else {
        seq![units[0]] + before_zero(units.drop_first())
    }
}

/// Takes the units before the first zero.
pub fn until_zero(units: &Vec<u16>) -> (r: Vec<u16>)
    ensures
        r@ == before_zero(units@),
{
    let mut out: Vec<u16> = Vec::new();
    let mut i: usize = 0;
    proof {
        assert(units@.skip(0) =~= units@);
        assert(out@ + before_zero(units@) =~= before_zero(units@));
    }
    while i < units.len() && units[i] != 0
        invariant
            i <= units@.len(),
            out@ + before_zero(units@.skip(i as int)) == before_zero(units@),
        decreases units@.len() - i,
    {
        let ghost before = out@;
        let ghost rest = units@.skip(i as int);
        out.push(units[i]);
        proof {
            assert(rest.drop_first() =~= units@.skip(i + 1));
            assert(out@ + before_zero(units@.skip(i + 1)) =~= before + before_zero(rest));
        }
        i = i + 1;
    }
    assert(out@ + Seq::<u16>::empty() =~= out@);
    out
}

/// Reads a text that ends with a zero.
pub fn utf16z_to_string(value: &Vec<u16>) -> (r: String)
    ensures
        r@ == lossy_utf16(before_zero(value@)),
        utf16_text(before_zero(value@)) matches Some(s) ==> r@ == s,
{
    units_to_text(&until_zero(value))
}

/// Where the alias of Windows Terminal stands, below the directory of the user's local data.
pub fn windows_terminal_alias(local_app_data: &str) -> (r: String)
    ensures
        r@ == windows_path::windows_join(local_app_data@, "Microsoft\\WindowsApps\\wt.exe"@),
{
    windows_path::join_windows_path(local_app_data, "Microsoft\\WindowsApps\\wt.exe")
}

/// The program of Windows Terminal: its alias where that is a file, and else its name.
pub fn windows_terminal_program(alias: Option<String>, alias_is_file: bool) -> (r: String)
    ensures
        r@ == (if alias is Some && alias_is_file {
            alias.unwrap()@
        } else {
            "wt.exe"@
        }),
{
    match alias {
        Some(alias) => if alias_is_file {
            alias
        } else {
            "wt.exe".to_owned()
        },
        None => "wt.exe".to_owned(),
    }
}

/// The program of a shell: where it was found, and else its name.
pub fn shell_program(shell: ShellKind, found: Option<String>) -> (r: String)
    ensures
        r@ == (match found {
            Some(found) => found@,
            None => shell.program_name(),
        }),
{
    match found {
        Some(found) => found,
        None => shell.executable().to_owned(),
    }
}

/// What to start next.
#[derive(Debug, PartialEq, Eq)]
pub enum LaunchStep {
    /// A tab of Windows Terminal.
    WindowsTerminal,
    /// The shell itself. The error is that of Windows Terminal, if it was tried.
    DirectShell { terminal_error: Option<String> },
    Done,
}

/// Decides what is started first: within Windows Terminal a tab of it.
pub fn first_launch(within_windows_terminal: bool) -> (r: LaunchStep)
    ensures
        within_windows_terminal ==> r is WindowsTerminal,
        !within_windows_terminal ==> r is DirectShell && r->terminal_error is None,
{
    if within_windows_terminal {
        LaunchStep::WindowsTerminal
    } else {
        LaunchStep::DirectShell { terminal_error: None }
    }
}

/// Decides what follows Windows Terminal: where it failed, the shell itself is started.
pub fn after_windows_terminal(result: Result<(), String>) -> (r: LaunchStep)
    ensures
        match result {
            Ok(_) => r is Done,
            Err(error) => r is DirectShell && text::opt_text(r->terminal_error) == Some(error@),
        },
{
    match result {
        Ok(_) => LaunchStep::Done,
        Err(error) => LaunchStep::DirectShell { terminal_error: Some(error) },
    }
}

/// What is reported in the end: an error only where nothing could be started.
pub open spec fn launch_outcome(
    terminal_error: Option<Seq<char>>,
    shell_error: Option<Seq<char>>,
) -> Option<Seq<char>> {
    match (terminal_error, shell_error) {
        (_, None) => None,
        (None, Some(error)) => Some(error),
        (Some(terminal), Some(shell)) => Some(
            "Windows Terminal failed: "@ + terminal + "; shell fallback failed: "@ + shell,
        ),
    }
}

/// Reports how the shell itself was started. `None` is success.
pub fn after_direct_shell(terminal_error: Option<String>, shell_error: Option<String>) -> (r: Option<
    String,
>)
    ensures
        text::opt_text(r) == launch_outcome(
            text::opt_text(terminal_error),
            text::opt_text(shell_error),
        ),
{
    match shell_error {
        None => None,
        Some(shell_error) => match terminal_error {
            None => Some(shell_error),
            Some(terminal_error) => Some(
                "Windows Terminal failed: ".to_owned().concat(terminal_error.as_str()).concat(
                    "; shell fallback failed: ",
                ).concat(shell_error.as_str()),
            ),
        },
    }
}

/// What is told of a program that could not be started.
pub fn start_failure(program: &str, error: &str) -> (r: String)
    ensures
        r@ == "failed to start `"@ + program@ + "`: "@ + error@,
{
    "failed to start `".to_owned().concat(program).concat("`: ").concat(error)
}

/// An error is reported only where both ways failed.
pub proof fn law_launch_fails_only_if_both_ways_fail(
    terminal_error: Option<Seq<char>>,
    shell_error: Option<Seq<char>>,
)
    ensures
        launch_outcome(terminal_error, shell_error) is Some <==> shell_error is Some,
{
}

proof fn lemma_utf16_reads_back(s: Seq<char>)
    ensures
        utf16_text(utf16_units(s)) == Some(s),
    decreases s.len(),
{
    if s.len() > 0 {
        let c = s[0];
        let rest = s.drop_first();
        let units = utf16_units(s);
        lemma_utf16_reads_back(rest);
        lemma_utf16_char(c);
        let width = utf16_char(c).len() as int;
        assert(units.skip(width) =~= utf16_units(rest));
        assert(units[0] == utf16_char(c)[0]);
        if width == 2 {
            assert(units[1] == utf16_char(c)[1]);
        }
        assert(seq![c] + rest =~= s);
    } else {
        assert(s =~= Seq::empty());
    }
}

/// One unit is no surrogate; two units are a pair of them that stands for the character.
proof fn lemma_utf16_char(c: char)
    ensures
        ({
            let units = utf16_char(c);
            if units.len() == 1 {
                (units[0] < 0xD800 || units[0] >= 0xE000) && units[0] as int as char == c
            } else {
                &&& units.len() == 2
                &&& 0xD800 <= units[0] < 0xDC00
                &&& 0xDC00 <= units[1] < 0xE000
                &&& (0x10000 + (units[0] - 0xD800) * 1024 + (units[1] - 0xDC00)) as char == c
            }
        }),
{
}

proof fn lemma_little_endian_reads_back(units: Seq<u16>)
    ensures
        from_little_endian(little_endian(units)) == units,
    decreases units.len(),
{
    if units.len() > 0 {
        let bytes = little_endian(units);
        lemma_little_endian_reads_back(units.drop_first());
        assert(bytes.skip(2) =~= little_endian(units.drop_first()));
        assert(seq![units[0]] + units.drop_first() =~= units);
    } else {
        assert(units =~= Seq::empty());
    }
}

proof fn lemma_sextet(n: int)
    requires
        0 <= n < 64,
    ensures
        sextet_value(sextet_char(n)) == n,
        sextet_char(n) != '=',
{
}

proof fn lemma_base64_reads_back(bytes: Seq<u8>)
    ensures
        base64_bytes(base64_text(bytes)) == bytes,
    decreases bytes.len(),
{
    if bytes.len() == 0 {
        assert(bytes =~= Seq::empty());
    } else {
        let a = bytes[0] as int;
        let b = if bytes.len() > 1 {
            bytes[1] as int
        } else {
            0
        };
        let c = if bytes.len() > 2 {
            bytes[2] as int
        } else {
            0
        };
        let s = base64_text(bytes);
        lemma_sextet(a / 4);
        lemma_sextet((a % 4) * 16 + b / 16);
        lemma_sextet((b % 16) * 4 + c / 64);
        lemma_sextet(c % 64);
        if bytes.len() > 3 {
            lemma_base64_reads_back(bytes.skip(3));
            assert(s.skip(4) =~= base64_text(bytes.skip(3)));
            assert(seq![bytes[0], bytes[1], bytes[2]] + bytes.skip(3) =~= bytes);
        } else if bytes.len() == 3 {
            assert(base64_bytes(s.skip(4)) =~= Seq::empty());
            assert(base64_bytes(s) =~= bytes);
        } else {
            assert(base64_bytes(s) =~= bytes);
        }
    }
}

/// An encoded command reads back as the command: whatever characters it has, none is lost and none
/// is changed.
pub proof fn law_encoded_command_reads_back(command: Seq<char>)
    ensures
        utf16_text(from_little_endian(base64_bytes(encoded_command(command)))) == Some(command),
{
    lemma_base64_reads_back(little_endian(utf16_units(command)));
    lemma_little_endian_reads_back(utf16_units(command));
    lemma_utf16_reads_back(command);
}

/// Each shell runs the command and stays open, by the arguments that it takes for that.
pub proof fn law_shell_runs_the_command_and_stays(command: Seq<char>)
    ensures
        ({
            let args = shell_arguments(ShellKind::Cmd, command);
            args.len() == 2 && args[0] == "/k"@ && args[1] == command
        }),
        ({
            let args = shell_arguments(ShellKind::WindowsPowerShell, command);
            args.len() == 3 && args[0] == "-NoExit"@ && args[1] == "-Command"@ && args[2]
                == command
        }),
        ({
            let args = shell_arguments(ShellKind::PowerShellCore, command);
            args.len() == 3 && args[0] == "-NoExit"@ && args[1] == "-Command"@ && args[2]
                == command
        }),
        ShellKind::Cmd.program_name() == "cmd.exe"@,
        ShellKind::WindowsPowerShell.program_name() == "powershell.exe"@,
        ShellKind::PowerShellCore.program_name() == "pwsh.exe"@,
{
}

/// A wrapper runs the command as it is, or encoded for a PowerShell, and leaves the shell open.
pub proof fn law_wrapper_runs_the_command(program: Seq<char>, command: Seq<char>)
    ensures
        wrapper_content(ShellKind::Cmd, program, command) == "@echo off\r\n"@ + command
            + "\r\ncmd.exe /d /k\r\n"@,
        wrapper_content(ShellKind::WindowsPowerShell, program, command)
            == "@echo off\r\ncall \""@ + program + "\" -NoExit -EncodedCommand "@
            + encoded_command(command) + "\r\n"@,
        wrapper_content(ShellKind::PowerShellCore, program, command)
            == "@echo off\r\ncall \""@ + program + "\" -NoExit -EncodedCommand "@
            + encoded_command(command) + "\r\n"@,
{
}

/// Of each unit the low byte is written first and then the high one.
pub proof fn law_low_byte_is_written_first(units: Seq<u16>)
    ensures
        little_endian(units).len() == 2 * units.len(),
        forall|i: int|
            0 <= i < units.len() ==> little_endian(units)[2 * i] == #[trigger] units[i] % 256
                && little_endian(units)[2 * i + 1] == units[i] / 256,
    decreases units.len(),
{
    lemma_little_endian_len(units);
    if units.len() > 0 {
        let rest = units.drop_first();
        law_low_byte_is_written_first(rest);
        assert forall|i: int| 0 <= i < units.len() implies little_endian(units)[2 * i]
            == #[trigger] units[i] % 256 && little_endian(units)[2 * i + 1] == units[i] / 256 by {
            if i > 0 {
                assert(rest[i - 1] == units[i]);
            }
        }
    }
}

/// A character is one unit of its own number, or a high surrogate and then a low one.
pub proof fn law_character_is_a_unit_or_a_pair(c: char)
    ensures
        (c as int) < 0x10000 ==> utf16_char(c).len() == 1 && utf16_char(c)[0] == c as int,
        (c as int) >= 0x10000 ==> utf16_char(c).len() == 2 && 0xD800 <= utf16_char(c)[0] < 0xDC00
            && 0xDC00 <= utf16_char(c)[1] < 0xE000 && (utf16_char(c)[0] - 0xD800) * 1024 + (
        utf16_char(c)[1] - 0xDC00) + 0x10000 == c as int,
{
}

/// A shell is recognised by the name of its program, whatever its case and whatever directory it is in.
pub proof fn law_shell_is_recognised_by_its_name(path: Seq<char>)
    ensures
        ({
            let name = match windows_path::file_name(path) {
                Some(name) => name,
                None => path,
            };
            &&& shell_of(path) == Some(ShellKind::Cmd) <==> lower_case(name) == "cmd.exe"@
            &&& shell_of(path) == Some(ShellKind::WindowsPowerShell) <==> lower_case(name)
                == "powershell.exe"@
            &&& shell_of(path) == Some(ShellKind::PowerShellCore) <==> lower_case(name)
                == "pwsh.exe"@
            &&& forall|i: int|
                0 <= i < name.len() ==> #[trigger] lower_case(name)[i] == ids::ascii_lower(name[i])
            &&& lower_case(name).len() == name.len()
        }),
{
    reveal_strlit("cmd.exe");
    reveal_strlit("powershell.exe");
    reveal_strlit("pwsh.exe");
    assert("cmd.exe"@.len() == 7 && "powershell.exe"@.len() == 14 && "pwsh.exe"@.len() == 8);
}

/// The shell that is found is the first one on the way from a process to those that started it.
pub proof fn law_nearest_shell_is_found(
    processes: Map<u32, ProcessInfo>,
    way: Seq<u32>,
    depth: nat,
)
    requires
        0 < way.len() <= depth,
        forall|i: int| 0 <= i < way.len() ==> processes.contains_key(#[trigger] way[i]),
        forall|i: int, j: int|
            0 <= i && j == i + 1 && j < way.len() ==> processes[#[trigger] way[i]].parent_process_id
                == #[trigger] way[j] && way[i] != way[j] && shell_of(
                processes[way[i]].executable_name@,
            ) is None,
    ensures
        shell_of(processes[way.last()].executable_name@) is Some ==> ancestor_shell(
            processes,
            way[0],
            depth,
        ) == shell_of(processes[way.last()].executable_name@),
        shell_of(processes[way.last()].executable_name@) is None && (
        processes[way.last()].parent_process_id == way.last() || !processes.contains_key(
            processes[way.last()].parent_process_id,
        ) || way.len() == depth) ==> ancestor_shell(processes, way[0], depth) is None,
    decreases way.len(),
{
    reveal_with_fuel(ancestor_shell, 2);
    assert(processes.contains_key(way[0]));
    if way.len() > 1 {
        let rest = way.drop_first();
        assert(processes[way[0]].parent_process_id == way[1]);
        assert forall|i: int| 0 <= i < rest.len() implies processes.contains_key(
            #[trigger] rest[i],
        ) by {
            assert(rest[i] == way[i + 1]);
        }
        assert forall|i: int, j: int| 0 <= i && j == i + 1 && j < rest.len() implies processes[
            #[trigger] rest[i]].parent_process_id == #[trigger] rest[j] && rest[i] != rest[j]
            && shell_of(processes[rest[i]].executable_name@) is None by {
            assert(rest[i] == way[i + 1] && rest[j] == way[j + 1]);
        }
        law_nearest_shell_is_found(processes, rest, (depth - 1) as nat);
    }
}

/// A text that ends with a zero is what stands before the first one.
pub proof fn law_text_ends_at_the_first_zero(units: Seq<u16>)
    ensures
        ({
            let before = before_zero(units);
            &&& before.len() <= units.len()
            &&& before == units.take(before.len() as int)
            &&& forall|i: int| 0 <= i < before.len() ==> #[trigger] before[i] != 0
            &&& before.len() < units.len() ==> units[before.len() as int] == 0
        }),
    decreases units.len(),
{
    if units.len() > 0 && units[0] != 0 {
        let rest = units.drop_first();
        law_text_ends_at_the_first_zero(rest);
        let before = before_zero(units);
        assert(before =~= units.take(before.len() as int));
        assert forall|i: int| 0 <= i < before.len() implies #[trigger] before[i] != 0 by {
            if i > 0 {
                assert(before[i] == before_zero(rest)[i - 1]);
            }
        }
    } else {
        assert(units.take(0) =~= Seq::empty());
    }
}

/// What failed is told: the shell's error, and that of Windows Terminal before it if that was tried.
pub proof fn law_both_errors_are_told(terminal: Seq<char>, shell: Seq<char>, any: Option<Seq<char>>)
    ensures
        launch_outcome(any, None) is None,
        launch_outcome(None, Some(shell)) == Some(shell),
        launch_outcome(Some(terminal), Some(shell)) == Some(
            "Windows Terminal failed: "@ + terminal + "; shell fallback failed: "@ + shell,
        ),
{
}

} // verus!
