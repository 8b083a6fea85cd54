use codex_supervisor::geometry::{Position, Rect};
use codex_supervisor::main_transcript::{layout, shift_scroll, transcript_width, wants_older_history};
use codex_supervisor::panel::PanelScroll;
use codex_supervisor::session::StepStatus;
use codex_supervisor::rules_load::{
    command_failure, failure_message, list_arguments, locate_rule_system_binary,
    parse_rules_output, require_command, CommandOutcome, LocateError,
};
use codex_supervisor::sidebar::{
    bottom_pane_width, heading_text, lay_out_block, rules_sidebar_layout, rules_sidebar_width,
    split_sidebar_area, LineStyle, MouseScroll, PlanContent, RuleBlock, RuleItem, RuleListOutput,
    RulesSidebarLoad, RulesSidebarState, ScrollDirection,
};

const THREAD: u128 = 0x123;

fn strings(values: &[&str]) -> Vec<String> {
    values.iter().map(|value| value.to_string()).collect()
}

fn rule(title: &str, content: &str) -> RuleItem {
    RuleItem { title: title.to_string(), content: content.to_string() }
}

fn test_state() -> RulesSidebarState {
    RulesSidebarState::new(THREAD, "/workspace".to_string())
}

fn render_panel(state: &mut RulesSidebarState, width: u16, height: u16) -> String {
    let panel = state
        .render_rules(Rect::new(0, 0, width, height))
        .expect("the panel has an area");
    let mut rows = vec![String::new(); height as usize];
    let indent = " ".repeat(panel.frame.header.x as usize);
    rows[panel.frame.header.y as usize] = format!("{indent}{}", panel.header);
    let content = panel.frame.content;
    for row in 0..content.height as usize {
        if let Some(line) = panel.lines.get(row + panel.frame.scroll as usize) {
            assert!(line.text.chars().count() <= content.width as usize);
            rows[content.y as usize + row] =
                format!("{indent}{}", line.text).trim_end().to_string();
        }
    }
    if let Some(footer) = panel.frame.footer {
        rows[footer.y as usize] = format!("{indent}{}", panel.footer);
    }
    rows.join("\n").trim_end().to_string()
}

#[test]
fn transcript_width_matches_the_embedded_scrollbar_reservation() {
    assert_eq!(transcript_width(Rect::new(0, 0, 80, 10)), 79);
    assert_eq!(transcript_width(Rect::new(0, 0, 1, 10)), 1);
    assert_eq!(transcript_width(Rect::new(0, 0, 0, 10)), 1);
}

#[test]
fn composer_keeps_its_height_below_the_transcript() {
    let area = Rect::new(2, 1, 80, 24);
    let split = layout(area, 6);
    assert_eq!(split.timeline, Rect::new(2, 1, 80, 17));
    assert_eq!(split.composer, Rect::new(2, 19, 80, 6));
    let full = layout(area, 40);
    assert_eq!(full.timeline, Rect::new(2, 1, 80, 0));
    assert_eq!(full.composer, area);
    let hidden = layout(area, 0);
    assert_eq!(hidden.timeline, area);
    assert_eq!(hidden.composer, Rect::new(2, 25, 80, 0));
}

#[test]
fn transcript_is_scrolled_while_shift_is_held() {
    let up = Some(ScrollDirection::Up);
    assert_eq!(shift_scroll(up, true, false), up);
    assert_eq!(shift_scroll(up, false, true), up);
    assert_eq!(shift_scroll(up, false, false), None);
    assert_eq!(shift_scroll(None, true, true), None);
    assert!(wants_older_history(ScrollDirection::Up, true, true));
    assert!(!wants_older_history(ScrollDirection::Down, true, true));
    assert!(!wants_older_history(ScrollDirection::Up, false, true));
    assert!(!wants_older_history(ScrollDirection::Up, true, false));
}

#[test]
fn parses_rule_system_list_contract() {
    let report = RuleListOutput {
        session_id: "00000000-0000-0000-0000-000000000123".to_string(),
        rule_count: 1,
        rules: vec![rule("Testing", "Run focused tests.")],
    };

    assert_eq!(
        parse_rules_output(Ok(report), THREAD),
        Ok(RulesSidebarLoad {
            rules: vec![RuleItem {
                title: "Testing".to_string(),
                content: "Run focused tests.".to_string(),
            }],
        })
    );
}

#[test]
fn rejects_rule_system_output_for_another_session() {
    let report = RuleListOutput {
        session_id: "00000000-0000-0000-0000-000000000999".to_string(),
        rule_count: 0,
        rules: vec![],
    };

    let error = parse_rules_output(Ok(report), THREAD).expect_err("session mismatch");
    assert_eq!(error, "rule-system returned rules for a different session.");
}

#[test]
fn inconsistent_reports_are_refused() {
    let session_id = "00000000-0000-0000-0000-000000000123".to_string();
    let wrong_count = RuleListOutput { session_id: session_id.clone(), rule_count: 2, rules: vec![] };
    assert_eq!(
        parse_rules_output(Ok(wrong_count), THREAD),
        Err("rule-system returned an inconsistent rule count.".to_string())
    );
    let rules: Vec<RuleItem> = (0..257).map(|_| rule("t", "c")).collect();
    let too_many = RuleListOutput { session_id: session_id.clone(), rule_count: 257, rules };
    assert_eq!(
        parse_rules_output(Ok(too_many), THREAD),
        Err("rule-system returned more than 256 rules.".to_string())
    );
    let rules: Vec<RuleItem> = (0..256).map(|_| rule("t", "c")).collect();
    let most = RuleListOutput { session_id, rule_count: 256, rules };
    assert_eq!(parse_rules_output(Ok(most), THREAD).expect("rules are taken").rules.len(), 256);
    assert_eq!(
        parse_rules_output(Err("EOF".to_string()), THREAD),
        Err("rule-system returned invalid JSON: EOF".to_string())
    );
}

#[test]
fn locates_cli_from_enabled_rule_list_skill() {
    let root = tempfile::tempdir().expect("tempdir");
    let parts: Vec<String> = root
        .path()
        .components()
        .map(|part| part.as_os_str().to_string_lossy().into_owned())
        .collect();
    let mut skill = parts.clone();
    skill.extend(strings(&["skills", "rule-list", "SKILL.md"]));
    let mut binary = parts.clone();
    binary.extend(strings(&["bin", "rule-system"]));

    assert_eq!(locate_rule_system_binary(Some(&skill), false), Ok(binary.clone()));
    assert_eq!(require_command(binary.clone(), true), Ok(binary.clone()));
    assert_eq!(require_command(binary, false), Err(LocateError::NoCommand));
    let mut windows_binary = parts;
    windows_binary.extend(strings(&["bin", "rule-system.exe"]));
    assert_eq!(locate_rule_system_binary(Some(&skill), true), Ok(windows_binary));
}

#[test]
fn each_reason_for_a_missing_command_is_told() {
    assert_eq!(locate_rule_system_binary(None, false), Err(LocateError::NotEnabled));
    let other = strings(&["/", "skills", "other", "SKILL.md"]);
    assert_eq!(locate_rule_system_binary(Some(&other), false), Err(LocateError::UnexpectedLayout));
    let short = strings(&["SKILL.md"]);
    assert_eq!(locate_rule_system_binary(Some(&short), false), Err(LocateError::UnexpectedLayout));
    let misplaced = strings(&["/", "tools", "rule-list", "SKILL.md"]);
    assert_eq!(
        locate_rule_system_binary(Some(&misplaced), false),
        Err(LocateError::NoSkillsDirectory)
    );
    assert_eq!(
        LocateError::NotEnabled.message(),
        "rule-system:rule-list is not enabled for this workspace."
    );
    assert_eq!(
        LocateError::UnexpectedLayout.message(),
        "The rule-list skill path has an unexpected layout."
    );
    assert_eq!(
        LocateError::NoSkillsDirectory.message(),
        "The rule-system skills directory could not be resolved."
    );
    assert_eq!(
        LocateError::NoCommand.message(),
        "The rule-system CLI is unavailable in the enabled plugin version."
    );
}

#[test]
fn rules_are_listed_for_the_session() {
    assert_eq!(
        list_arguments(THREAD, "/workspace"),
        strings(&[
            "list",
            "--session-id",
            "00000000-0000-0000-0000-000000000123",
            "--project-root",
            "/workspace",
        ])
    );
}

#[test]
fn each_failure_of_the_command_is_told() {
    assert_eq!(
        command_failure(&CommandOutcome::TimedOut),
        Some("Timed out while loading rules from rule-system.".to_string())
    );
    assert_eq!(
        command_failure(&CommandOutcome::NotStarted("no such file".to_string())),
        Some("Failed to start rule-system: no such file".to_string())
    );
    assert_eq!(
        command_failure(&CommandOutcome::Failed {
            status: "exit status: 2".to_string(),
            stderr: vec![b' ', b'b', 0xff, b'd', b'\n'],
        }),
        Some("rule-system failed: b\u{fffd}d".to_string())
    );
    assert_eq!(
        failure_message("exit status: 2", " \n"),
        "rule-system exited with exit status: 2."
    );
    assert_eq!(
        command_failure(&CommandOutcome::Succeeded { stdout_len: 1024 * 1024 + 1 }),
        Some("rule-system returned more than 1 MiB of rule data.".to_string())
    );
    assert_eq!(command_failure(&CommandOutcome::Succeeded { stdout_len: 1024 * 1024 }), None);
}

#[test]
fn rules_panel_loading_and_empty_snapshots() {
    let mut loading = test_state();
    loading.begin_load();
    assert_eq!(
        render_panel(&mut loading, 40, 10),
        " Rules  0  refreshing\n\n Loading rules...\n\n\n\n\n\n\n Ctrl+T close"
    );

    let mut empty = test_state();
    assert_eq!(
        render_panel(&mut empty, 72, 10),
        " Rules  0\n\n No rules selected for this session.\n\n\n\n\n\n\n Ctrl+T close"
    );
}

#[test]
fn rules_panel_wrap_error_and_scroll_snapshots() {
    let mut state = test_state();
    state.finish_load(Ok(RulesSidebarLoad {
        rules: vec![
            rule(
                "Verification boundary",
                "Run focused tests before claiming completion, and keep this deliberately long so the sidebar wrapping remains reviewable.",
            ),
            rule(
                "Failure handling",
                "Keep the last successful rules visible when refresh fails.",
            ),
        ],
    }));
    let wrapped = render_panel(&mut state, 40, 12);
    assert_eq!(
        wrapped,
        [
            " Rules  2",
            "",
            " 1. Verification boundary",
            " Run focused tests before claiming",
            " completion, and keep this",
            " deliberately long so the sidebar",
            " wrapping remains reviewable.",
            "",
            " 2. Failure handling",
            " Keep the last successful rules",
            " visible when refresh fails.",
            " Ctrl+T close",
        ]
        .join("\n")
    );

    let _ = render_panel(&mut state, 40, 8);
    state.page_down();
    assert_eq!(
        render_panel(&mut state, 40, 8),
        [
            " Rules  2",
            "",
            " wrapping remains reviewable.",
            "",
            " 2. Failure handling",
            " Keep the last successful rules",
            " visible when refresh fails.",
            " Ctrl+Alt+Up/Down scroll  Ctrl+T close",
        ]
        .join("\n")
    );

    state.finish_load(Err("rule-system failed: database busy".to_string()));
    let stale = render_panel(&mut state, 40, 12);
    assert!(stale.starts_with(" Rules  2  stale\n"));
    assert_eq!(state.rules.len(), 2);
    let lines = state.rule_lines(37);
    assert_eq!(lines[0].text, "rule-system failed: database busy");
    assert_eq!(lines[0].style, LineStyle::Red);
    assert_eq!(lines[1].text, "Showing last loaded rules.");
    assert_eq!(lines[1].style, LineStyle::Dim);
    assert_eq!(lines[2].text, "");
    assert_eq!(lines[3].text, "1. Verification boundary");
    assert_eq!(lines[3].style, LineStyle::Bold);
}

#[test]
fn error_without_rules_stands_alone() {
    let mut state = test_state();
    state.begin_load();
    state.finish_load(Err("broken".to_string()));
    assert!(!state.loading);
    let lines = state.rule_lines(20);
    assert_eq!(lines.len(), 1);
    assert_eq!((lines[0].style, lines[0].text.as_str()), (LineStyle::Red, "broken"));
}

#[test]
fn words_wider_than_the_panel_are_broken() {
    let mut state = test_state();
    state.finish_load(Ok(RulesSidebarLoad { rules: vec![rule(" ", "abcdefgh\n\nxy")] }));
    let texts: Vec<String> = state.rule_lines(5).into_iter().map(|line| line.text).collect();
    assert_eq!(texts, strings(&["1.", "Untit", "led", "rule", "abcde", "fgh", "", "xy"]));
    let narrow: Vec<String> = state.rule_lines(0).into_iter().map(|line| line.text).collect();
    assert!(narrow.iter().all(|text| text.chars().count() <= 1));
}

#[test]
fn headings_number_the_rules() {
    assert_eq!(heading_text(0, "  Tests "), "1. Tests");
    assert_eq!(heading_text(9, ""), "10. Untitled rule");
}

#[test]
fn blocks_take_the_lines_of_their_text() {
    let wrapping = RuleBlock { style: LineStyle::Plain, text: "a b".to_string(), wraps: true };
    let lines = lay_out_block(&wrapping, &strings(&["a", "b"]));
    assert_eq!(lines.len(), 2);
    assert_eq!(lines[1].text, "b");
    let single = RuleBlock { style: LineStyle::Dim, text: "a b".to_string(), wraps: false };
    let lines = lay_out_block(&single, &strings(&["a", "b"]));
    assert_eq!(lines.len(), 1);
    assert_eq!(lines[0].text, "a b");
}

#[test]
fn nothing_is_drawn_into_an_empty_area() {
    let mut state = test_state();
    assert!(state.render_rules(Rect::new(0, 0, 0, 10)).is_none());
    assert!(state.render_plan(Rect::new(0, 0, 10, 0), &vec![], 3).is_none());
    assert_eq!(state, test_state());
}

#[test]
fn plan_panel_counts_completed_steps() {
    let mut state = test_state();
    let steps = vec![StepStatus::Completed, StepStatus::InProgress, StepStatus::Pending];
    let panel = state.render_plan(Rect::new(80, 12, 40, 8), &steps, 9).expect("a plan is drawn");
    assert_eq!(panel.header, "Plan  1/3");
    assert_eq!(panel.footer, "Mouse wheel scroll");
    assert_eq!(state.plan, PanelScroll { scroll_offset: 0, max_scroll: 4, page_height: 5 });
    state.scroll_plan(ScrollDirection::Down);
    assert_eq!(state.plan.scroll_offset, 1);
    let panel = state.render_plan(Rect::new(80, 12, 40, 20), &steps, 9).expect("a plan is drawn");
    assert_eq!(panel.footer, "");
    assert_eq!(state.plan.scroll_offset, 0);
    state.reset_plan();
    assert_eq!(state.plan, PanelScroll { scroll_offset: 0, max_scroll: 0, page_height: 1 });
}

#[test]
fn panel_scrolls_within_its_content() {
    let mut scroll = PanelScroll::new(1);
    scroll.scroll_up();
    scroll.scroll_down();
    assert_eq!(scroll.scroll_offset, 0);
    let frame = scroll.draw(Rect::new(0, 0, 10, 8), 20).expect("a panel is drawn");
    assert_eq!(frame.header, Rect::new(1, 0, 8, 1));
    assert_eq!(frame.content, Rect::new(1, 2, 7, 5));
    assert_eq!(frame.footer, Some(Rect::new(1, 7, 8, 1)));
    assert_eq!(frame.scrollbar.expect("content is longer").area, Rect::new(8, 2, 1, 5));
    scroll.page_down();
    scroll.page_down();
    assert_eq!(scroll.scroll_offset, 10);
    scroll.page_down();
    scroll.page_down();
    assert_eq!(scroll.scroll_offset, 15);
    scroll.page_up();
    assert_eq!(scroll.scroll_offset, 10);
    let frame = scroll.draw(Rect::new(0, 0, 10, 8), 6).expect("a panel is drawn");
    assert_eq!(scroll.scroll_offset, 1);
    assert_eq!(frame.scroll, 1);
    scroll.reset();
    assert_eq!(scroll, PanelScroll { scroll_offset: 0, max_scroll: 0, page_height: 1 });
}

#[test]
fn screen_is_split_where_it_is_wide_enough() {
    assert_eq!(rules_sidebar_width(60), 40);
    assert_eq!(rules_sidebar_width(150), 50);
    assert_eq!(rules_sidebar_width(600), 64);
    assert_eq!(bottom_pane_width(Rect::new(0, 0, 111, 24)), None);
    assert_eq!(bottom_pane_width(Rect::new(0, 0, 120, 24)), Some(79));
    assert_eq!(rules_sidebar_layout(Rect::new(0, 0, 40, 24), true, 4), None);
    let layout = rules_sidebar_layout(Rect::new(0, 0, 120, 24), true, 4).expect("wide screen");
    assert_eq!(layout.timeline, Rect::new(0, 0, 79, 20));
    assert_eq!(layout.bottom, Rect::new(0, 20, 79, 4));
    assert_eq!(layout.divider, Rect::new(79, 0, 1, 24));
    assert_eq!(layout.rules, Rect::new(80, 0, 40, 12));
    assert_eq!(layout.plan_divider, Some(Rect::new(80, 12, 40, 1)));
    assert_eq!(layout.plan, Some(Rect::new(80, 13, 40, 11)));
    let bare = rules_sidebar_layout(Rect::new(0, 0, 120, 24), false, 90).expect("wide screen");
    assert_eq!(bare.timeline, Rect::new(0, 0, 79, 0));
    assert_eq!(bare.rules, Rect::new(80, 0, 40, 24));
    assert_eq!(bare.plan, None);
    assert_eq!(
        split_sidebar_area(Rect::new(80, 0, 40, 1)),
        (Rect::new(80, 0, 40, 0), Rect::new(80, 0, 40, 1), Rect::new(80, 1, 40, 0))
    );
}

#[test]
fn plan_keeps_a_row_and_rules_get_the_odd_one() {
    assert_eq!(
        split_sidebar_area(Rect::new(80, 5, 40, 2)),
        (Rect::new(80, 5, 40, 0), Rect::new(80, 5, 40, 1), Rect::new(80, 6, 40, 1))
    );
    assert_eq!(
        split_sidebar_area(Rect::new(80, 5, 40, 3)),
        (Rect::new(80, 5, 40, 1), Rect::new(80, 6, 40, 1), Rect::new(80, 7, 40, 1))
    );
    assert_eq!(
        split_sidebar_area(Rect::new(80, 5, 40, 4)),
        (Rect::new(80, 5, 40, 2), Rect::new(80, 7, 40, 1), Rect::new(80, 8, 40, 1))
    );
    assert_eq!(
        split_sidebar_area(Rect::new(80, 5, 40, 0)),
        (Rect::new(80, 5, 40, 0), Rect::new(80, 4, 40, 1), Rect::new(80, 5, 40, 0))
    );
}

#[test]
fn mouse_wheel_only_scrolls_the_left_timeline() {
    let area = Rect::new(0, 0, 120, 24);
    let mut state = test_state();
    let down = Some(ScrollDirection::Down);
    assert_eq!(
        state.handle_mouse_scroll(area, false, 4, down, Position { x: 1, y: 1 }),
        MouseScroll::Transcript(ScrollDirection::Down)
    );
    assert_eq!(
        state.handle_mouse_scroll(area, false, 4, down, Position { x: 119, y: 1 }),
        MouseScroll::Ignored
    );
    assert_eq!(
        state.handle_mouse_scroll(area, false, 4, down, Position { x: 1, y: 23 }),
        MouseScroll::Ignored
    );
    assert_eq!(
        state.handle_mouse_scroll(area, false, 4, None, Position { x: 1, y: 1 }),
        MouseScroll::Ignored
    );
}

#[test]
fn mouse_wheel_scrolls_the_plan_under_the_pointer() {
    let area = Rect::new(0, 0, 120, 24);
    let mut state = test_state();
    state.plan = PanelScroll { scroll_offset: 0, max_scroll: 3, page_height: 5 };
    let down = Some(ScrollDirection::Down);
    assert_eq!(
        state.handle_mouse_scroll(area, true, 4, down, Position { x: 100, y: 20 }),
        MouseScroll::Plan
    );
    assert_eq!(state.plan.scroll_offset, 1);
    let narrow = Rect::new(0, 0, 40, 24);
    assert_eq!(
        state.handle_mouse_scroll(narrow, true, 4, down, Position { x: 1, y: 20 }),
        MouseScroll::Plan
    );
    assert_eq!(
        state.handle_mouse_scroll(narrow, true, 4, down, Position { x: 1, y: 1 }),
        MouseScroll::Ignored
    );
    assert_eq!(state.plan.scroll_offset, 2);
}

#[test]
fn rectangles_stay_on_the_screen() {
    let rect = Rect::new(65530, 3, 10, 2);
    assert_eq!(rect.width, 5);
    assert_eq!(rect.right(), 65535);
    assert_eq!(rect.bottom(), 5);
    assert!(rect.contains(Position { x: 65534, y: 4 }));
    assert!(!rect.contains(Position { x: 65534, y: 5 }));
    assert!(!rect.is_empty());
    assert!(Rect::new(0, 0, 0, 5).is_empty());
}

#[test]
fn sidebar_is_drawn_beside_or_in_place_of_the_transcript() {
    let mut state = test_state();
    let plan = PlanContent { steps: vec![StepStatus::Completed], line_count: 30 };
    let wide = state.render(Rect::new(0, 0, 120, 24), 4, Some(&plan));
    assert_eq!(wide.layout.map(|layout| layout.timeline), Some(Rect::new(0, 0, 79, 20)));
    assert_eq!(wide.plan_divider, Some(Rect::new(80, 12, 40, 1)));
    assert_eq!(wide.rules.expect("rules are drawn").frame.header, Rect::new(81, 0, 38, 1));
    assert_eq!(wide.plan.expect("a plan is drawn").header, "Plan  1/1");
    assert_eq!(state.plan.max_scroll, 22);
    let narrow = state.render(Rect::new(0, 0, 60, 24), 4, Some(&plan));
    assert_eq!(narrow.layout, None);
    assert_eq!(narrow.rules.expect("rules are drawn").frame.header, Rect::new(1, 0, 58, 1));
    assert_eq!(narrow.plan_divider, Some(Rect::new(0, 12, 60, 1)));
    let bare = state.render(Rect::new(0, 0, 60, 24), 4, None);
    assert_eq!(bare.plan_divider, None);
    assert!(bare.plan.is_none());
    assert_eq!(state.plan, PanelScroll { scroll_offset: 0, max_scroll: 0, page_height: 1 });
}
