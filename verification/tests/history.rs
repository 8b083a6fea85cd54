use codex_supervisor::reflow;
use codex_supervisor::reflow::{
    CellKind, HistoryLineWrapPolicy, ReflowStep, Size, StreamFinish, TranscriptCell,
    TranscriptState, WidthNote,
};
use codex_supervisor::surfaces::Waiting;

const NOTICE: &str = "Earlier messages are available — press ctrl + e to view the full transcript";

fn cell(id: u64, kind: CellKind, lines: Vec<&'static str>) -> TranscriptCell<&'static str> {
    TranscriptCell { id, kind, is_stream_continuation: false, lines }
}

fn plain(id: u64, line: &'static str) -> TranscriptCell<&'static str> {
    cell(id, CellKind::Other, vec![line])
}

fn user(id: u64, line: &'static str) -> TranscriptCell<&'static str> {
    cell(id, CellKind::User, vec!["", line, ""])
}

fn plain_cells(count: u64) -> Vec<TranscriptCell<&'static str>> {
    (0..count)
        .map(|index| plain(index, Box::leak(format!("cell {index}").into_boxed_str())))
        .collect()
}

fn state(cells: Vec<TranscriptCell<&'static str>>) -> TranscriptState<&'static str> {
    let mut state = TranscriptState::new();
    state.cells = cells;
    state
}

fn render(
    state: &mut TranscriptState<&'static str>,
    max_rows: Option<usize>,
) -> Vec<&'static str> {
    state.render_transcript_lines_for_reflow(max_rows, "", Some(&vec![NOTICE]))
}

#[test]
fn latest_turn_reflow_starts_at_the_first_user_message_of_a_turn() {
    let mut app = state(vec![user(1, "first prompt")]);
    app.mark_history_turn_start(Some("turn-1".to_string()));
    app.cells.push(plain(2, "first answer"));
    app.cells.push(user(3, "steer prompt"));
    app.mark_history_turn_start(Some("turn-1".to_string()));
    app.cells.push(plain(4, "final answer"));

    let rendered_text = render(&mut app, None).join("\n");

    assert!(rendered_text.contains("first prompt"));
    assert!(rendered_text.contains("steer prompt"));
    assert!(rendered_text.contains("final answer"));
}

#[test]
fn optimistic_user_message_is_the_latest_turn_projection_before_echo() {
    let mut app = state(vec![user(1, "old prompt")]);
    app.mark_history_turn_start(Some("old-turn".to_string()));
    app.cells.push(plain(2, "old answer"));
    app.cells.push(user(3, "optimistic prompt"));
    app.mark_history_turn_start(None);

    let rendered_text = render(&mut app, None).join("\n");

    assert!(rendered_text.contains("optimistic prompt"));
    assert!(!rendered_text.contains("old prompt"));
    assert!(!rendered_text.contains("old answer"));
}

#[test]
fn session_info_only_reflow_does_not_invent_an_earlier_messages_notice() {
    let mut app = state(vec![plain(1, "session info")]);

    let rendered_text = render(&mut app, Some(32)).join("\n");

    assert!(!rendered_text.contains("Earlier messages are available"));
}

#[test]
fn removing_latest_turn_boundary_falls_back_to_remaining_user_turn() {
    let mut app = state(vec![user(1, "older prompt")]);
    app.mark_history_turn_start(Some("older-turn".to_string()));
    app.cells.push(plain(2, "older answer"));
    app.cells.push(user(3, "removed prompt"));
    app.mark_history_turn_start(Some("removed-turn".to_string()));
    app.cells.pop();

    let rendered_text = render(&mut app, None).join("\n");

    assert!(rendered_text.contains("older prompt"));
    assert!(rendered_text.contains("older answer"));
    assert!(!rendered_text.contains("removed prompt"));
}

#[test]
fn backtrack_rebuild_refreshes_the_rendered_history_tail() {
    let mut app = state(Vec::new());
    for (id, line, turn) in [
        (1, "remaining prompt", "remaining-turn"),
        (2, "removed prompt", "removed-turn"),
    ] {
        let cell = user(id, line);
        app.insert_history_cell_lines(&cell, "", false);
        app.cells.push(cell);
        app.mark_history_turn_start(Some(turn.to_string()));
    }
    let expected_tail = app.cells[0].id;
    app.cells.pop();

    let rebuild = app.rebuild_transcript_after_backtrack(None, "", None, false);

    assert!(rebuild.clears_scrollback);
    let rendered_tail = app
        .rendered_tail
        .as_ref()
        .expect("backtrack should refresh the rendered tail");
    assert_eq!(rendered_tail.cell, expected_tail);
}

#[test]
fn resize_reflow_preserves_configured_scrollback_beyond_the_visible_viewport() {
    let mut app = state(plain_cells(64));
    let visible_history_rows = reflow::visible_history_rows(Size { width: 80, height: 24 }, 5);

    let rendered = render(&mut app, Some(32));

    assert_eq!(rendered.len(), 32);
    assert!(rendered.len() > usize::from(visible_history_rows));
    assert_eq!(rendered.last(), Some(&"cell 63"));
}

#[test]
fn initial_replay_renders_latest_turn_without_trimming_transcript() {
    let mut app = state(Vec::new());
    app.begin_initial_history_replay_buffer(false);
    assert!(app.replaying);
    for cell in [
        user(1, "› old prompt"),
        plain(2, "old answer"),
        user(3, "› latest prompt"),
        plain(4, "latest answer"),
    ] {
        app.cells.push(cell);
    }

    assert_eq!(app.cells.len(), 4);
    let rendered = render(&mut app, Some(32));
    let rendered_text = rendered.join("\n");
    assert!(rendered_text.contains("latest prompt"));
    assert!(rendered_text.contains("latest answer"));
    assert!(!rendered_text.contains("old prompt"));
    assert!(!rendered_text.contains("old answer"));
    assert_eq!(rendered.len(), 6);

    let rebuild = app
        .finish_initial_history_replay_buffer(Some(32), "", Some(&vec![NOTICE]), false)
        .expect("a replay was running");
    assert!(!app.replaying);
    assert!(!rebuild.lines.is_empty());
    assert_eq!(rebuild.lines, rendered);
    assert_eq!(
        rendered,
        vec![NOTICE, "", "› latest prompt", "", "", "latest answer"]
    );
}

#[test]
fn latest_turn_reflow_ignores_row_cap() {
    let mut app = state(vec![
        user(1, "latest prompt"),
        cell(2, CellKind::Other, vec!["line one", "line two", "line three"]),
    ]);

    let rendered = render(&mut app, Some(2));

    assert!(rendered.len() > 2);
    assert!(rendered.iter().any(|line| line.contains("line three")));
    assert_eq!(app.cells.len(), 2);
}

#[test]
fn resize_reflow_preserves_configured_scrollback_when_the_terminal_height_changes() {
    let mut app = state(plain_cells(64));

    assert_eq!(reflow::visible_history_rows(Size { width: 80, height: 24 }, 5), 19);
    let smaller = render(&mut app, Some(48));
    assert_eq!(reflow::visible_history_rows(Size { width: 80, height: 48 }, 5), 43);
    let larger = render(&mut app, Some(48));

    assert_eq!(smaller.len(), 48);
    assert_eq!(larger.len(), 48);
    assert_eq!(smaller, larger);
    assert_eq!(larger.last(), Some(&"cell 63"));
}

#[test]
fn resize_reflow_preserves_explicitly_unlimited_history() {
    let mut app = state(plain_cells(20));

    let rendered = render(&mut app, None);

    assert_eq!(rendered.len(), 39);
    assert_eq!(rendered.first(), Some(&"cell 0"));
    assert_eq!(rendered.last(), Some(&"cell 19"));
}

#[test]
fn capped_resize_reflow_prepends_transcript_notice_without_changing_transcript() {
    let mut app = state(plain_cells(12));

    let rendered = render(&mut app, Some(8));

    assert_eq!(rendered.len(), 8);
    assert_eq!(app.cells.len(), 12);
    assert_eq!(
        rendered,
        vec![NOTICE, "cell 8", "", "cell 9", "", "cell 10", "", "cell 11"]
    );
}

#[test]
fn capped_resize_reflow_counts_wrapped_notice_rows() {
    let mut app = state(plain_cells(12));
    let notice = vec![
        "Earlier messages are",
        "available — press ctrl + e",
        "to view the full transcript",
    ];

    let rendered = app.render_transcript_lines_for_reflow(Some(8), "", Some(&notice));

    assert_eq!(rendered.len(), 8);
    assert_eq!(
        rendered,
        vec![
            "Earlier messages are",
            "available — press ctrl + e",
            "to view the full transcript",
            "cell 9",
            "",
            "cell 10",
            "",
            "cell 11",
        ]
    );
}

#[test]
fn one_row_history_cap_preserves_conversation_instead_of_notice() {
    let mut app = state(plain_cells(2));
    app.has_older_history = true;

    let rendered = render(&mut app, Some(1));

    assert_eq!(rendered.len(), 1);
    assert_eq!(rendered, vec!["cell 1"]);
}

#[test]
fn paginated_resize_reflow_prepends_transcript_notice_for_unloaded_history() {
    let mut app = state(plain_cells(2));
    app.has_older_history = true;

    let rendered = render(&mut app, Some(32));

    assert_eq!(rendered, vec![NOTICE, "cell 0", "", "cell 1"]);
}

#[test]
fn scrollback_refill_uses_all_loaded_rows_not_latest_turn_projection() {
    let mut app = state(plain_cells(20));
    app.has_older_history = true;
    app.cells.push(user(100, "latest prompt"));

    let latest_turn_rows = render(&mut app, Some(32)).len();
    let loaded_rows = app.rendered_transcript_rows_for_scrollback(Some(32));

    assert!(latest_turn_rows < 32);
    assert!(loaded_rows >= 32);
    assert!(!app.scrollback_history_needs_top_up(loaded_rows, Some(32), false));
}

#[test]
fn scrollback_refill_still_triggers_for_underfilled_loaded_transcript() {
    let mut app = state(plain_cells(2));
    app.has_older_history = true;

    let loaded_rows = app.rendered_transcript_rows_for_scrollback(Some(32));

    assert!(loaded_rows < 32);
    assert!(app.scrollback_history_needs_top_up(loaded_rows, Some(32), false));
}

#[test]
fn rows_are_counted_as_they_are_written() {
    let mut app = state(plain_cells(5));
    assert_eq!(app.rendered_transcript_rows_for_scrollback(Some(100)), 9);
    assert_eq!(app.rendered_transcript_rows_for_scrollback(Some(4)), 4);
    assert_eq!(app.rendered_transcript_rows_for_scrollback(None), 0);
    assert_eq!(render(&mut app, None).len(), 9);
}

#[test]
fn stream_is_shown_from_its_start() {
    let mut cells = plain_cells(3);
    for id in 10..13 {
        cells.push(TranscriptCell {
            id,
            kind: CellKind::AgentMessage,
            is_stream_continuation: id > 10,
            lines: vec!["piece"],
        });
    }
    assert_eq!(reflow::trailing_run_start(&cells, CellKind::AgentMessage), 3);
    assert_eq!(reflow::trailing_run_start(&cells, CellKind::ProposedPlanStream), 6);
    assert!(reflow::should_mark_reflow_as_stream_time(&cells, false, false));
    let mut app = state(cells);
    let rendered = app.render_transcript_lines_for_reflow(Some(2), "", None);
    assert_eq!(rendered, vec!["piece", "piece"]);
    let rendered = app.render_transcript_lines_for_reflow(Some(3), "", None);
    assert_eq!(rendered, vec!["piece", "piece", "piece"]);
    app.cells.push(plain(20, "end"));
    assert!(!reflow::should_mark_reflow_as_stream_time(&app.cells, false, false));
    assert!(reflow::should_mark_reflow_as_stream_time(&app.cells, false, true));
}

#[test]
fn lines_wait_on_the_alternate_screen() {
    let mut app = state(Vec::new());
    assert_eq!(app.insert_history_cell_lines(&plain(1, "a"), "", false), vec!["a"]);
    assert_eq!(app.insert_history_cell_lines(&plain(2, "b"), "", true), Vec::<&str>::new());
    assert_eq!(app.deferred_lines, vec!["", "b"]);
    app.reset_history_emission_state();
    assert!(app.deferred_lines.is_empty());
    assert!(!app.has_emitted_lines);
}

#[test]
fn rebuild_asks_for_older_history_where_there_is_room() {
    let mut app = state(plain_cells(2));
    app.has_older_history = true;
    let thread = Some(7);
    let rebuild = app.reflow_transcript_now(Some(32), "", None, false, thread);
    assert!(rebuild.clears_scrollback);
    assert_eq!(rebuild.older_history_request, Some(7));
    assert!(!rebuild.settles_pending_reflow);
    assert_eq!(rebuild.lines, vec!["cell 0", "", "cell 1"]);
    // Under an overlay, without a thread and without room nothing is requested.
    let request = |app: &mut TranscriptState<&'static str>, rows, overlay, thread| {
        app.reflow_transcript_now(Some(rows), "", None, overlay, thread).older_history_request
    };
    assert_eq!(request(&mut app, 32, true, thread), None);
    assert_eq!(request(&mut app, 32, false, None), None);
    assert_eq!(request(&mut app, 3, false, thread), None);
    assert_eq!(request(&mut app, 4, false, thread), Some(7));
    assert_eq!(app.request_scrollback_history_top_up(3, Some(4), false, thread), Some(7));
    assert_eq!(app.request_scrollback_history_top_up(3, None, false, thread), None);
    let mut empty = state(Vec::new());
    let rebuild = empty.reflow_transcript_now(Some(32), "", None, false, thread);
    assert!(!rebuild.clears_scrollback);
    assert!(rebuild.lines.is_empty());
    assert_eq!(rebuild.older_history_request, None);
    assert!(empty.rebuild_transcript_after_backtrack(None, "", None, false).clears_scrollback);
}

#[test]
fn no_usage_refresh_waits_after_a_rebuild() {
    let nothing = Waiting { lines: false, usage: false };
    let waiting_app = |cells| {
        let mut app = state(cells);
        app.usage_refresh_waits = true;
        app.insert_history_cell_lines(&plain(90, "deferred"), "", true);
        assert_eq!(app.waiting(), Waiting { lines: true, usage: true });
        app
    };

    let mut app = waiting_app(plain_cells(2));
    app.reflow_transcript_now(None, "", None, false, None);
    assert_eq!(app.waiting(), nothing);

    let mut app = waiting_app(plain_cells(2));
    app.rebuild_transcript_after_backtrack(None, "", None, false);
    assert_eq!(app.waiting(), nothing);
    let mut app = waiting_app(Vec::new());
    app.rebuild_transcript_after_backtrack(None, "", None, false);
    assert_eq!(app.waiting(), nothing);

    let mut app = waiting_app(plain_cells(2));
    app.begin_initial_history_replay_buffer(false);
    let rebuild = app.finish_initial_history_replay_buffer(None, "", None, false);
    assert!(rebuild.expect("a replay was running").settles_pending_reflow);
    assert_eq!(app.waiting(), nothing);

    // Without cells there is nothing to rebuild, and the refresh waits on.
    let mut app = waiting_app(Vec::new());
    app.reflow_transcript_now(None, "", None, false, None);
    assert_eq!(app.waiting(), Waiting { lines: false, usage: true });
}

#[test]
fn pending_rebuild_waits_for_its_time_and_its_screen() {
    let mut app = state(plain_cells(1));
    let step = |app: &TranscriptState<&'static str>, pending, now, alternate| {
        reflow::resize_reflow_step(app, pending, now, alternate, false, false)
    };
    assert_eq!(step(&app, None, 10, false), ReflowStep::Idle);
    assert_eq!(step(&app, Some(15), 10, false), ReflowStep::DrawAgainIn(5));
    assert_eq!(step(&app, Some(10), 10, true), ReflowStep::Blocked);
    assert_eq!(step(&app, Some(10), 10, false), ReflowStep::Run { during_stream: false });
    app.begin_initial_history_replay_buffer(false);
    assert_eq!(step(&app, Some(10), 10, false), ReflowStep::Blocked);
    assert_eq!(reflow::maybe_finish_stream_reflow(true, false, true), StreamFinish::LeaveToReplay);
    assert_eq!(reflow::maybe_finish_stream_reflow(true, false, false), StreamFinish::Reflow);
    assert_eq!(reflow::maybe_finish_stream_reflow(false, true, false), StreamFinish::DrawFrame);
    assert_eq!(reflow::maybe_finish_stream_reflow(false, false, false), StreamFinish::Nothing);
    let mut empty = state(Vec::new());
    assert!(!empty.maybe_clear_resize_reflow_without_terminal(Some(20), 10, false));
    assert!(empty.maybe_clear_resize_reflow_without_terminal(Some(10), 10, false));
    assert!(!app.maybe_clear_resize_reflow_without_terminal(Some(10), 10, false));
}

#[test]
fn first_width_does_not_rebuild_and_a_new_height_does() {
    let cells = plain_cells(1);
    let size = Size { width: 80, height: 24 };
    let first = WidthNote {
        initialized: true,
        changed: false,
        reflow_needed: false,
        rows_known: false,
    };
    let change =
        reflow::handle_draw_size_change(&cells, size, size, first, false, false, false);
    assert!(!change.rebuilds);
    assert!(change.resizes_chat);
    assert!(change.updates_visible_rows);
    let taller = Size { width: 80, height: 30 };
    let known = WidthNote {
        initialized: false,
        changed: false,
        reflow_needed: false,
        rows_known: true,
    };
    let change =
        reflow::handle_draw_size_change(&cells, taller, size, known, true, false, false);
    assert!(change.rebuilds);
    assert_eq!(change.target_width, None);
    assert!(!change.marks_stream);
    let wider = WidthNote { reflow_needed: true, changed: true, ..known };
    let change = reflow::handle_draw_size_change(
        &cells,
        Size { width: 90, height: 24 },
        size,
        wider,
        true,
        false,
        true,
    );
    assert_eq!(change.target_width, Some(90));
    assert!(change.marks_stream);
    assert!(!change.drops_queued_lines);
}

#[test]
fn notice_names_the_key() {
    assert_eq!(reflow::earlier_messages_notice("ctrl + e"), NOTICE);
    assert_eq!(reflow::history_line_wrap_policy(true), HistoryLineWrapPolicy::Terminal);
    assert_eq!(reflow::history_line_wrap_policy(false), HistoryLineWrapPolicy::PreWrap);
    assert_eq!(reflow::visible_history_rows(Size { width: 1, height: 3 }, 9), 1);
}
