use std::collections::HashMap;

use base64::engine::general_purpose::STANDARD;
use base64::Engine;
use codex_supervisor::terminal::{
    after_direct_shell, after_windows_terminal, build_direct_shell_spec,
    build_shell_wrapper_content, build_windows_terminal_spec, detect_parent_shell, encode_utf16,
    encode_powershell_command, first_launch, select_shell, shell_kind_from_process_name,
    shell_program, start_failure, to_little_endian, until_zero, utf16z_to_string,
    windows_terminal_alias, windows_terminal_program, LaunchSpec, LaunchStep, ProcessInfo,
    ShellKind, CREATE_NEW_CONSOLE,
};
use codex_supervisor::windows_path::{file_name_text, join_windows_path};

fn strings(values: &[&str]) -> Vec<String> {
    values.iter().map(|value| value.to_string()).collect()
}

#[test]
fn command_shell_spec_uses_new_console_and_keeps_cmd_open() {
    let cwd = r"C:\workspace";
    let program = shell_program(ShellKind::Cmd, None);
    let spec = build_direct_shell_spec(ShellKind::Cmd, &program, "echo ready", cwd);

    assert_eq!(
        spec,
        LaunchSpec {
            program: shell_program(ShellKind::Cmd, None),
            args: strings(&["/k", "echo ready"]),
            cwd: cwd.to_string(),
            creation_flags: CREATE_NEW_CONSOLE,
        }
    );
}

#[test]
fn powershell_spec_runs_the_command_and_stays_open() {
    let spec = build_direct_shell_spec(ShellKind::WindowsPowerShell, "powershell.exe", "dir", "D:\\");
    assert_eq!(
        spec,
        LaunchSpec {
            program: "powershell.exe".to_string(),
            args: strings(&["-NoExit", "-Command", "dir"]),
            cwd: "D:\\".to_string(),
            creation_flags: 16,
        }
    );
}

#[test]
fn windows_terminal_spec_uses_single_wrapper_without_fixed_window() {
    let cwd = r"C:\workspace";
    let wrapper = r"C:\Temp\codex-external-terminal.cmd";
    let program = windows_terminal_program(None, false);
    let spec = build_windows_terminal_spec(&program, wrapper, cwd);

    assert_eq!(
        spec,
        LaunchSpec {
            program: windows_terminal_program(None, false),
            args: strings(&["new-tab", "-d", cwd, "--", wrapper]),
            cwd: cwd.to_string(),
            creation_flags: 0,
        }
    );
}

#[test]
fn powershell_wrapper_encodes_command_and_keeps_shell_open() {
    let command = "Write-Host '中文' | Out-Host";
    let program = shell_program(ShellKind::PowerShellCore, None);
    let content = build_shell_wrapper_content(ShellKind::PowerShellCore, &program, command);
    let encoded = encode_powershell_command(command);

    assert!(content.contains("-NoExit -EncodedCommand"));
    assert!(content.contains(&encoded));
    assert!(!content.contains(command));
    assert!(!content.contains("Remove-Item"));
    assert!(!content.contains("try"));
    assert!(!content.contains("finally"));

    let bytes = STANDARD.decode(encoded).expect("valid PowerShell encoding");
    let units = bytes
        .chunks_exact(2)
        .map(|chunk| u16::from_le_bytes([chunk[0], chunk[1]]))
        .collect::<Vec<_>>();
    assert_eq!(String::from_utf16(&units).expect("valid UTF-16"), command);
}

#[test]
fn powershell_wrapper_calls_the_shell_where_it_was_found() {
    assert_eq!(
        build_shell_wrapper_content(ShellKind::PowerShellCore, r"C:\pwsh 7\pwsh.exe", "a"),
        "@echo off\r\ncall \"C:\\pwsh 7\\pwsh.exe\" -NoExit -EncodedCommand YQA=\r\n"
    );
}

#[test]
fn cmd_wrapper_runs_command_then_keeps_cmd_open() {
    let program = shell_program(ShellKind::Cmd, None);
    let content = build_shell_wrapper_content(ShellKind::Cmd, &program, "echo ready");

    assert_eq!(content, "@echo off\r\necho ready\r\ncmd.exe /d /k\r\n");
    assert!(!content.contains("del /f"));
    assert!(!content.contains("%~f0"));
}

#[test]
fn shell_process_names_are_case_insensitive() {
    assert_eq!(
        shell_kind_from_process_name("C:\\Windows\\System32\\POWERSHELL.EXE"),
        Some(ShellKind::WindowsPowerShell)
    );
    assert_eq!(shell_kind_from_process_name("cargo.exe"), None);
}

#[test]
fn file_names_are_read_from_paths() {
    assert_eq!(shell_kind_from_process_name("Cmd.exe"), Some(ShellKind::Cmd));
    assert_eq!(shell_kind_from_process_name("c:pwsh.exe"), Some(ShellKind::PowerShellCore));
    assert_eq!(shell_kind_from_process_name("a/b\\cmd.exe\\.\\"), Some(ShellKind::Cmd));
    assert_eq!(shell_kind_from_process_name("\\\\host\\share\\cmd.exe"), Some(ShellKind::Cmd));
    assert_eq!(shell_kind_from_process_name("\\\\host\\cmd.exe"), None);
    assert_eq!(shell_kind_from_process_name("cmd.exe\\other"), None);
    assert_eq!(shell_kind_from_process_name("xcmd.exe"), None);
    assert_eq!(shell_kind_from_process_name(""), None);
    assert_eq!(shell_kind_from_process_name("\\\\cmd.exe\\."), None);
    assert_eq!(shell_kind_from_process_name("\\\\cmd.exe\\"), Some(ShellKind::Cmd));
    assert_eq!(shell_kind_from_process_name("C:\\cmd.exe\\.."), None);
}

#[test]
fn verbatim_paths_are_separated_by_backslashes_alone() {
    assert_eq!(file_name_text(r"\\?\UNC\server\cmd.exe"), None);
    assert_eq!(shell_kind_from_process_name(r"\\?\UNC\server\cmd.exe"), None);
    assert_eq!(
        shell_kind_from_process_name(r"\\?\UNC\server\share\cmd.exe"),
        Some(ShellKind::Cmd)
    );
    assert_eq!(shell_kind_from_process_name(r"\\?\C:\Windows\cmd.exe\"), Some(ShellKind::Cmd));
    assert_eq!(file_name_text(r"\\?\C:\dir/cmd.exe"), Some("dir/cmd.exe".to_string()));
    assert_eq!(shell_kind_from_process_name(r"\\?\C:\dir/cmd.exe"), None);
    assert_eq!(file_name_text(r"\\?\C:\cmd.exe\."), None);
    assert_eq!(file_name_text(r"\\?\cmd.exe"), None);
    assert_eq!(file_name_text(r"\\?\volume\cmd.exe"), Some("cmd.exe".to_string()));
    assert_eq!(file_name_text(r"//?/C:/cmd.exe"), Some("cmd.exe".to_string()));
    assert_eq!(file_name_text(r"//?/cmd.exe"), None);
    assert_eq!(file_name_text(r"\\.\cmd.exe"), None);
    assert_eq!(file_name_text(r"\\.\pipe\cmd.exe"), Some("cmd.exe".to_string()));
    assert_eq!(file_name_text(r"C:\"), None);
    assert_eq!(file_name_text("."), None);
}

#[test]
fn windows_paths_are_joined_by_a_backslash() {
    assert_eq!(join_windows_path(r"C:\a", "b"), r"C:\a\b");
    assert_eq!(join_windows_path(r"C:\a\", "b"), r"C:\a\b");
    assert_eq!(join_windows_path("C:/a/", "b"), "C:/a/b");
    assert_eq!(join_windows_path("C:", "b"), "C:b");
    assert_eq!(join_windows_path("CC:", "b"), r"CC:\b");
    assert_eq!(join_windows_path("", "b"), "b");
    assert_eq!(join_windows_path(r"\\?\C:\a\\c\", "b"), r"\\?\C:\a\c\b");
    assert_eq!(join_windows_path(r"\\?\C:", "b"), r"\\?\C:\b");
    assert_eq!(windows_terminal_alias("D:"), r"D:Microsoft\WindowsApps\wt.exe");
}

#[test]
fn pwsh_is_preferred_over_the_detected_parent_shell() {
    assert_eq!(
        select_shell(Some(ShellKind::PowerShellCore), Some(ShellKind::Cmd)),
        ShellKind::PowerShellCore
    );
    assert_eq!(
        select_shell(
            Some(ShellKind::PowerShellCore),
            Some(ShellKind::WindowsPowerShell),
        ),
        ShellKind::PowerShellCore
    );
}

#[test]
fn detected_parent_shell_is_used_when_pwsh_is_unavailable() {
    assert_eq!(
        select_shell(None, Some(ShellKind::WindowsPowerShell)),
        ShellKind::WindowsPowerShell
    );
    assert_eq!(
        select_shell(None, Some(ShellKind::PowerShellCore)),
        ShellKind::PowerShellCore
    );
}

#[test]
fn cmd_is_the_final_shell_fallback() {
    assert_eq!(select_shell(None, None), ShellKind::Cmd);
}

fn process(parent_process_id: u32, executable_name: &str) -> ProcessInfo {
    ProcessInfo { parent_process_id, executable_name: executable_name.to_string() }
}

#[test]
fn parent_shell_is_the_nearest_ancestor() {
    let mut processes = HashMap::new();
    processes.insert(4, process(3, "codex.exe"));
    processes.insert(3, process(2, "node.exe"));
    processes.insert(2, process(1, "powershell.exe"));
    processes.insert(1, process(0, "cmd.exe"));
    assert_eq!(detect_parent_shell(&processes, 4), Some(ShellKind::WindowsPowerShell));
    assert_eq!(detect_parent_shell(&processes, 1), Some(ShellKind::Cmd));
    assert_eq!(detect_parent_shell(&processes, 9), None);
}

#[test]
fn walk_to_the_parent_shell_is_bounded() {
    let mut circle = HashMap::new();
    circle.insert(1, process(2, "a.exe"));
    circle.insert(2, process(1, "b.exe"));
    circle.insert(3, process(3, "c.exe"));
    assert_eq!(detect_parent_shell(&circle, 1), None);
    assert_eq!(detect_parent_shell(&circle, 3), None);

    let mut chain = HashMap::new();
    for id in 0..40 {
        chain.insert(id, process(id + 1, if id == 31 { "cmd.exe" } else { "a.exe" }));
    }
    assert_eq!(detect_parent_shell(&chain, 0), Some(ShellKind::Cmd));
    chain.insert(31, process(32, "a.exe"));
    chain.insert(32, process(33, "cmd.exe"));
    assert_eq!(detect_parent_shell(&chain, 0), None);
}

#[test]
fn texts_end_at_the_first_zero() {
    let units: Vec<u16> = "pwsh.exe\0junk".encode_utf16().collect();
    assert_eq!(until_zero(&units).len(), 8);
    assert_eq!(utf16z_to_string(&units), "pwsh.exe");
    assert_eq!(utf16z_to_string(&vec![0x61, 0x62]), "ab");
    assert_eq!(utf16z_to_string(&vec![0xd800, 0x61]), "\u{fffd}a");
}

#[test]
fn units_are_written_in_pairs_beyond_the_basic_plane() {
    assert_eq!(encode_utf16("a😀"), vec![0x61, 0xd83d, 0xde00]);
    assert_eq!(to_little_endian(&vec![0x0102, 0xff00]), vec![2, 1, 0, 0xff]);
}

#[test]
fn windows_terminal_is_found_by_its_alias() {
    let alias = windows_terminal_alias(r"C:\Users\me\AppData\Local");
    assert_eq!(alias, r"C:\Users\me\AppData\Local\Microsoft\WindowsApps\wt.exe");
    assert_eq!(windows_terminal_program(Some(alias.clone()), true), alias);
    assert_eq!(windows_terminal_program(Some(alias), false), "wt.exe");
    assert_eq!(windows_terminal_program(None, true), "wt.exe");
}

#[test]
fn shells_are_used_where_they_were_found() {
    let found = Some(r"C:\tools\pwsh.exe".to_string());
    assert_eq!(shell_program(ShellKind::PowerShellCore, found), r"C:\tools\pwsh.exe");
    assert_eq!(shell_program(ShellKind::PowerShellCore, None), "pwsh.exe");
    assert_eq!(shell_program(ShellKind::Cmd, None), "cmd.exe");
}

#[test]
fn launch_fails_only_if_both_ways_fail() {
    assert_eq!(first_launch(true), LaunchStep::WindowsTerminal);
    assert_eq!(first_launch(false), LaunchStep::DirectShell { terminal_error: None });
    assert_eq!(after_windows_terminal(Ok(())), LaunchStep::Done);
    assert_eq!(
        after_windows_terminal(Err("no tab".to_string())),
        LaunchStep::DirectShell { terminal_error: Some("no tab".to_string()) }
    );
    assert_eq!(after_direct_shell(Some("no tab".to_string()), None), None);
    assert_eq!(
        after_direct_shell(Some("no tab".to_string()), Some("no shell".to_string())),
        Some("Windows Terminal failed: no tab; shell fallback failed: no shell".to_string())
    );
    assert_eq!(
        after_direct_shell(None, Some("no shell".to_string())),
        Some("no shell".to_string())
    );
    assert_eq!(start_failure("wt.exe", "missing"), "failed to start `wt.exe`: missing");
}
