use codex_supervisor::exit_messages::{format_exit_messages, AppExitInfo, ExitReason};
use codex_supervisor::hook_calls::{call_metadata, hook_answer, ContentPart};
use codex_supervisor::side::{Placeholder, SideChange, SideState};
use codex_supervisor::sidebar::{RuleItem, RulesSidebarLoad};
use codex_supervisor::surfaces::{
    pasted_text, ScrollDestination, SidebarKeys, SurfaceAction, Surfaces, Waiting,
};

const NOTHING_WAITS: Waiting = Waiting { lines: false, usage: false };

const NO_KEY: SidebarKeys = SidebarKeys {
    toggle: false,
    open_transcript: false,
    close: false,
    transcript_jump_top: false,
    transcript_jump_bottom: false,
    scroll_up: false,
    scroll_down: false,
    page_up: false,
    page_down: false,
};

fn open() -> Surfaces {
    let mut surfaces = Surfaces::new();
    surfaces.open_rules_sidebar(Some(7), "/workspace".to_string(), NOTHING_WAITS);
    surfaces
}

#[test]
fn rules_sidebar_opens_with_a_load() {
    let mut surfaces = Surfaces::new();
    let actions = surfaces.open_rules_sidebar(Some(7), "/workspace".to_string(), NOTHING_WAITS);
    assert_eq!(
        actions,
        vec![
            SurfaceAction::EnterAlternateScreenWithoutScroll,
            SurfaceAction::CaptureMouseAlways,
            SurfaceAction::LoadRules { generation: 1, after_seconds: 0 },
            SurfaceAction::ScheduleFrame,
        ]
    );
    let sidebar = surfaces.rules_sidebar.as_ref().expect("sidebar is open");
    assert!(sidebar.loading);
    assert!(sidebar.context_matches(7, "/workspace"));
    assert!(!sidebar.context_matches(8, "/workspace"));
    assert!(!sidebar.context_matches(7, "/other"));
    assert!(surfaces.alt_screen_surface_active());
}

#[test]
fn rules_sidebar_needs_a_session() {
    let mut surfaces = Surfaces::new();
    let actions = surfaces.open_rules_sidebar(None, "/workspace".to_string(), NOTHING_WAITS);
    assert_eq!(actions, vec![SurfaceAction::TellNoSession]);
    assert_eq!(surfaces, Surfaces::new());
}

#[test]
fn non_sidebar_key_is_not_consumed() {
    let mut surfaces = open();
    assert_eq!(surfaces.handle_rules_sidebar_key(false, NO_KEY, false), (false, vec![]));
}

#[test]
fn closing_writes_what_waited() {
    let mut surfaces = open();
    let toggle = SidebarKeys { toggle: true, ..NO_KEY };
    let (taken, actions) = surfaces.handle_rules_sidebar_key(false, toggle, true);
    assert!(taken);
    assert_eq!(
        actions,
        vec![
            SurfaceAction::LeaveAlternateScreen,
            SurfaceAction::CaptureMouse,
            SurfaceAction::WriteDeferredLines,
            SurfaceAction::ScheduleFrame,
        ]
    );
    assert!(!surfaces.alt_screen_surface_active());
    assert_eq!(surfaces.close_rules_sidebar(true), vec![]);
}

#[test]
fn official_transcript_overlay_replaces_rules_sidebar_state() {
    let mut surfaces = open();
    let actions = surfaces.activate_overlay(NOTHING_WAITS);
    assert_eq!(
        actions,
        vec![
            SurfaceAction::ReleaseMouse,
            SurfaceAction::EnableAlternateScroll,
            SurfaceAction::ScheduleFrame,
        ]
    );
    assert!(surfaces.rules_sidebar.is_none());
    assert!(surfaces.overlay);
    surfaces.close_overlay();
    assert!(!surfaces.alt_screen_surface_active());
}

#[test]
fn skill_popup_keeps_priority_over_view_shortcuts() {
    let mut surfaces = open();
    let open_transcript = SidebarKeys { open_transcript: true, ..NO_KEY };
    let toggle = SidebarKeys { toggle: true, ..NO_KEY };
    assert_eq!(surfaces.handle_rules_sidebar_key(true, open_transcript, false), (false, vec![]));
    assert_eq!(surfaces.handle_rules_sidebar_key(true, toggle, false), (false, vec![]));
    assert!(surfaces.rules_sidebar.is_some());
    assert!(!surfaces.overlay);
}

#[test]
fn modified_home_and_end_jump_transcript_without_stealing_composer_keys() {
    let mut surfaces = open();
    let top = SidebarKeys { transcript_jump_top: true, ..NO_KEY };
    assert_eq!(
        surfaces.handle_rules_sidebar_key(false, top, false),
        (
            true,
            vec![
                SurfaceAction::JumpTranscript(ScrollDestination::Top),
                SurfaceAction::ScheduleFrame,
            ]
        )
    );
    let bottom = SidebarKeys { transcript_jump_bottom: true, ..NO_KEY };
    assert_eq!(
        surfaces.handle_rules_sidebar_key(false, bottom, false),
        (
            true,
            vec![
                SurfaceAction::JumpTranscript(ScrollDestination::Bottom),
                SurfaceAction::ScheduleFrame,
            ]
        )
    );
    assert!(!surfaces.handle_rules_sidebar_key(false, NO_KEY, false).0);
}

#[test]
fn ctrl_e_transitions_from_rules_to_transcript_without_reentering_alt_screen() {
    let mut surfaces = open();
    let open_transcript = SidebarKeys { open_transcript: true, ..NO_KEY };
    assert_eq!(
        surfaces.handle_rules_sidebar_key(false, open_transcript, false),
        (true, vec![SurfaceAction::OpenTranscript])
    );
    let actions = surfaces.activate_overlay(NOTHING_WAITS);
    assert!(!actions.contains(&SurfaceAction::EnterAlternateScreen));
    assert!(surfaces.rules_sidebar.is_none());
    assert!(surfaces.overlay);
}

#[test]
fn stale_rule_load_is_ignored_after_close() {
    let mut surfaces = open();
    let generation = surfaces.rules_sidebar_generation;
    surfaces.close_rules_sidebar(false);

    let actions =
        surfaces.handle_rules_sidebar_loaded(generation, Ok(RulesSidebarLoad { rules: vec![] }));

    assert_eq!(actions, vec![]);
    assert!(surfaces.rules_sidebar.is_none());
}

#[test]
fn finished_load_is_shown_and_repeated() {
    let mut surfaces = open();
    let generation = surfaces.rules_sidebar_generation;
    let rules = vec![RuleItem { title: "t".to_string(), content: "c".to_string() }];
    let actions = surfaces.handle_rules_sidebar_loaded(generation, Ok(RulesSidebarLoad { rules }));
    assert_eq!(
        actions,
        vec![
            SurfaceAction::ScheduleFrame,
            SurfaceAction::LoadRules { generation, after_seconds: 2 },
        ]
    );
    let sidebar = surfaces.rules_sidebar.as_ref().expect("sidebar is open");
    assert_eq!(sidebar.rules.len(), 1);
    assert!(!sidebar.loading);
    surfaces.handle_rules_sidebar_loaded(generation, Err("busy".to_string()));
    let sidebar = surfaces.rules_sidebar.as_ref().expect("sidebar is open");
    assert_eq!(sidebar.rules.len(), 1);
    assert_eq!(sidebar.error.as_deref(), Some("busy"));
}

#[test]
fn sidebar_of_another_session_starts_over() {
    let mut surfaces = open();
    assert_eq!(
        surfaces.refresh_rules_sidebar_context_if_needed(Some(7), "/workspace".to_string()),
        vec![]
    );
    assert_eq!(
        surfaces.refresh_rules_sidebar_context_if_needed(Some(8), "/workspace".to_string()),
        vec![SurfaceAction::LoadRules { generation: 2, after_seconds: 0 }]
    );
    assert_eq!(surfaces.rules_sidebar.as_ref().map(|sidebar| sidebar.thread_id), Some(8));
    assert_eq!(
        surfaces.refresh_rules_sidebar_context_if_needed(None, "/workspace".to_string()),
        vec![]
    );
}

#[test]
fn keys_scroll_the_rules() {
    let mut surfaces = open();
    if let Some(sidebar) = surfaces.rules_sidebar.as_mut() {
        sidebar.scroll.max_scroll = 9;
        sidebar.scroll.page_height = 4;
    }
    for (key, offset) in [
        (SidebarKeys { page_down: true, ..NO_KEY }, 4),
        (SidebarKeys { scroll_down: true, ..NO_KEY }, 5),
        (SidebarKeys { scroll_up: true, ..NO_KEY }, 4),
        (SidebarKeys { page_up: true, ..NO_KEY }, 0),
    ] {
        let (taken, actions) = surfaces.handle_rules_sidebar_key(false, key, false);
        assert!(taken);
        assert_eq!(actions, vec![SurfaceAction::ScheduleFrame]);
        assert_eq!(
            surfaces.rules_sidebar.as_ref().map(|sidebar| sidebar.scroll.scroll_offset),
            Some(offset)
        );
    }
}

#[test]
fn transcript_viewport_gives_way_to_the_other_surfaces() {
    let mut surfaces = Surfaces::new();
    assert!(!surfaces.may_open_main_transcript_viewport(true));
    assert!(surfaces.may_open_main_transcript_viewport(false));
    surfaces.open_main_transcript_viewport();
    assert!(!surfaces.may_open_main_transcript_viewport(false));
    let actions =
        surfaces.activate_overlay(Waiting { lines: true, usage: true });
    assert_eq!(
        actions,
        vec![
            SurfaceAction::LeaveAlternateScreen,
            SurfaceAction::CaptureMouse,
            SurfaceAction::WriteDeferredLines,
            SurfaceAction::RefreshUsage,
            SurfaceAction::ScheduleFrame,
            SurfaceAction::EnterAlternateScreen,
            SurfaceAction::ScheduleFrame,
        ]
    );
    assert!(!surfaces.main_transcript);
    assert_eq!(surfaces.close_main_transcript_viewport(NOTHING_WAITS), vec![]);
}

#[test]
fn side_conversation_changes_the_bottom_pane() {
    let mut state = SideState {
        active_side_conversation: false,
        is_review_mode: false,
        blocks_direct_input: true,
    };
    assert!(state.can_start_side_conversation());
    assert_eq!(
        state.set_side_conversation_active(true),
        SideChange {
            placeholder: Placeholder::Side,
            side_active: true,
            prompt_mode_available: false,
            refreshes_status_line: true,
            shows_parent_owned: false,
        }
    );
    assert!(state.side_conversation_active());
    assert!(!state.can_start_side_conversation());
    assert!(!state.set_side_conversation_active(true).refreshes_status_line);
    assert_eq!(
        state.set_side_conversation_active(false),
        SideChange {
            placeholder: Placeholder::Normal,
            side_active: false,
            prompt_mode_available: true,
            refreshes_status_line: true,
            shows_parent_owned: true,
        }
    );
    state.is_review_mode = true;
    assert!(!state.can_start_side_conversation());
}

fn part(content_type: Option<&str>, text: Option<&str>) -> ContentPart {
    ContentPart {
        content_type: content_type.map(str::to_string),
        text: text.map(str::to_string),
    }
}

#[test]
fn hook_gets_the_texts_of_a_result() {
    let content = vec![
        part(Some("text"), Some("first")),
        part(Some("image"), Some("skipped")),
        part(Some("text"), None),
        part(None, Some("skipped")),
        part(Some("text"), Some("second")),
    ];
    assert_eq!(hook_answer(&content, None), Ok("first\nsecond".to_string()));
    assert_eq!(hook_answer(&content, Some(false)), Ok("first\nsecond".to_string()));
    assert_eq!(
        hook_answer(&content, Some(true)),
        Err("MCP tool returned an error: first\nsecond".to_string())
    );
    assert_eq!(hook_answer(&vec![], None), Ok(String::new()));
}

#[test]
fn hook_call_names_its_thread() {
    assert_eq!(
        call_metadata(5).to_string(),
        "{\"threadId\":\"00000000-0000-0000-0000-000000000005\"}"
    );
}

fn exit_info(resume_hint: Option<&str>, exit_reason: ExitReason) -> AppExitInfo {
    AppExitInfo {
        token_usage: Some("Token usage: total=5".to_string()),
        thread_id: Some("thread-1".to_string()),
        resume_hint: resume_hint.map(str::to_string),
        exit_reason,
    }
}

#[test]
fn exit_messages_say_how_to_continue() {
    assert_eq!(
        format_exit_messages(&exit_info(Some("codex resume 1"), ExitReason::UserRequested), false),
        vec!["Token usage: total=5", "To continue this session, run codex resume 1"]
    );
    assert_eq!(
        format_exit_messages(&exit_info(Some("codex resume 1"), ExitReason::UserRequested), true)[1],
        "To continue this session, run \u{1b}[36mcodex resume 1\u{1b}[39m"
    );
    assert_eq!(
        format_exit_messages(&exit_info(None, ExitReason::Fatal("lost".to_string())), false),
        vec!["Token usage: total=5", "Session ID: thread-1"]
    );
    let mut unused = exit_info(None, ExitReason::UserRequested);
    unused.token_usage = None;
    assert_eq!(format_exit_messages(&unused, false), Vec::<String>::new());
}

#[test]
fn pasted_line_ends_become_line_feeds() {
    assert_eq!(pasted_text("a\r\nb\rc"), "a\n\nb\nc");
}
