//! The surfaces that take the alternate screen: the overlay, the rules sidebar and the transcript
//! viewport. At most one of them is active.
use crate::ids::ProcessId;
use crate::sidebar::{RulesSidebarLoad, RulesSidebarState, RulesSidebarView};
use crate::{geometry, panel, sidebar, text};
use vstd::prelude::*;

verus! {

/// How many seconds pass between two loads of the rules.
pub const RULES_POLL_SECONDS: u64 = 2;

/// An end of the transcript.
#[derive(Debug, Clone, Copy, PartialEq, Eq, Structural)]
pub enum ScrollDestination {
    Top,
    Bottom,
}

/// What a change of surface asks for, in order.
#[derive(Debug, Clone, Copy, PartialEq, Eq, Structural)]
pub enum SurfaceAction {
    EnterAlternateScreen,
    /// Enter it without having the wheel sent as arrow keys.
    EnterAlternateScreenWithoutScroll,
    LeaveAlternateScreen,
    CaptureMouseAlways,
    CaptureMouse,
    ReleaseMouse,
    EnableAlternateScroll,
    /// Write the lines of history that waited for the main screen.
    WriteDeferredLines,
    RefreshUsage,
    /// Load the rules for a generation of the sidebar, after some seconds.
    LoadRules { generation: u64, after_seconds: u64 },
    JumpTranscript(ScrollDestination),
    OpenTranscript,
    /// Tell the user that there is no session yet.
    TellNoSession,
    ScheduleFrame,
}

/// What waits for the main screen.
#[derive(Debug, Clone, Copy, PartialEq, Eq, Structural)]
pub struct Waiting {
    /// Lines of history.
    pub lines: bool,
    /// A refresh of the usage that the history shows.
    pub usage: bool,
}

/// The active surface.
#[derive(Debug, PartialEq, Eq)]
pub struct Surfaces {
    pub overlay: bool,
    pub rules_sidebar: Option<RulesSidebarState>,
    pub main_transcript: bool,
    /// Which opening of the sidebar a load belongs to.
    pub rules_sidebar_generation: u64,
}

/// The view of [`Surfaces`].
#[verifier::ext_equal]
pub struct SurfacesView {
    pub overlay: bool,
    pub rules_sidebar: Option<RulesSidebarView>,
    pub main_transcript: bool,
    pub rules_sidebar_generation: u64,
}

impl View for Surfaces {
    type V = SurfacesView;

    open spec fn view(&self) -> SurfacesView {
        SurfacesView {
            overlay: self.overlay,
            rules_sidebar: match self.rules_sidebar {
                Some(state) => Some(state@),
                None => None,
            },
            main_transcript: self.main_transcript,
            rules_sidebar_generation: self.rules_sidebar_generation,
        }
    }
}

/// The generation after a generation.
pub open spec fn next_generation(generation: u64) -> u64 {
    if generation == u64::MAX {
        0
    } else {
        (generation + 1) as u64
    }
}

/// What waits is taken care of, and a frame is drawn.
pub open spec fn back_on_main_screen(waiting: Waiting) -> Seq<SurfaceAction> {
    let left = seq![SurfaceAction::LeaveAlternateScreen, SurfaceAction::CaptureMouse];
    let written = if waiting.lines {
        left.push(SurfaceAction::WriteDeferredLines)
    } else {
        left
    };
    let refreshed = if waiting.usage {
        written.push(SurfaceAction::RefreshUsage)
    } else {
        written
    };
    refreshed.push(SurfaceAction::ScheduleFrame)
}

/// A sidebar that has just been opened: it loads its rules.
pub open spec fn opened_sidebar(thread_id: ProcessId, project_root: Seq<char>) -> RulesSidebarView {
    RulesSidebarView {
        thread_id,
        project_root,
        rules: Seq::empty(),
        error: None,
        loading: true,
        scroll: panel::PanelScroll { scroll_offset: 0, max_scroll: 0, page_height: 1 },
        plan: panel::PanelScroll { scroll_offset: 0, max_scroll: 0, page_height: 0 },
    }
}

impl SurfacesView {
    /// Whether a surface has the alternate screen.
    pub open spec fn active(self) -> bool {
        self.overlay || self.rules_sidebar is Some || self.main_transcript
    }

    /// Whether at most one surface is active.
    pub open spec fn exclusive(self) -> bool {
        &&& !(self.overlay && self.rules_sidebar is Some)
        &&& !(self.overlay && self.main_transcript)
        &&& !(self.rules_sidebar is Some && self.main_transcript)
    }

    /// Closing the transcript viewport.
    pub open spec fn main_transcript_closed(self, waiting: Waiting) -> (
        SurfacesView,
        Seq<SurfaceAction>,
    ) {
        if self.main_transcript {
            (SurfacesView { main_transcript: false, ..self }, back_on_main_screen(waiting))
        } else {
            (self, Seq::empty())
        }
    }

    /// Opening the rules sidebar. It takes the place of the transcript viewport.
    pub open spec fn sidebar_opened(
        self,
        thread_id: Option<ProcessId>,
        project_root: Seq<char>,
        waiting: Waiting,
    ) -> (SurfacesView, Seq<SurfaceAction>) {
        match thread_id {
            None => (self, seq![SurfaceAction::TellNoSession]),
            Some(thread_id) => {
                let (closed, actions) = self.main_transcript_closed(waiting);
                let generation = next_generation(self.rules_sidebar_generation);
                (
                    SurfacesView {
                        rules_sidebar: Some(opened_sidebar(thread_id, project_root)),
                        rules_sidebar_generation: generation,
                        ..closed
                    },
                    actions + seq![
                        SurfaceAction::EnterAlternateScreenWithoutScroll,
                        SurfaceAction::CaptureMouseAlways,
                        SurfaceAction::LoadRules { generation, after_seconds: 0 },
                        SurfaceAction::ScheduleFrame,
                    ],
                )
            },
        }
    }

    /// Closing the rules sidebar.
    pub open spec fn sidebar_closed(self, lines_wait: bool) -> (SurfacesView, Seq<SurfaceAction>) {
        if self.rules_sidebar is Some {
            (
                SurfacesView {
                    rules_sidebar: None,
                    rules_sidebar_generation: next_generation(self.rules_sidebar_generation),
                    ..self
                },
                back_on_main_screen(Waiting { lines: lines_wait, usage: false }),
            )
        } else {
            (self, Seq::empty())
        }
    }

    /// A load that has ended. Only the load of the sidebar that is open counts, and the next load
    /// starts when it has ended.
    pub open spec fn rules_loaded(
        self,
        generation: u64,
        result: Result<Seq<sidebar::RuleItemView>, Seq<char>>,
    ) -> (SurfacesView, Seq<SurfaceAction>) {
        if generation != self.rules_sidebar_generation || self.rules_sidebar is None {
            (self, Seq::empty())
        } else {
            (
                SurfacesView {
                    rules_sidebar: Some(sidebar::loaded(self.rules_sidebar.unwrap(), result)),
                    ..self
                },
                seq![
                    SurfaceAction::ScheduleFrame,
                    SurfaceAction::LoadRules { generation, after_seconds: RULES_POLL_SECONDS },
                ],
            )
        }
    }

    /// A frame for a thread and a project. A sidebar of another one starts over.
    pub open spec fn context_refreshed(
        self,
        thread_id: Option<ProcessId>,
        project_root: Seq<char>,
    ) -> (SurfacesView, Seq<SurfaceAction>) {
        match (thread_id, self.rules_sidebar) {
            (Some(thread_id), Some(state)) => if state.thread_id == thread_id
                && state.project_root == project_root {
                (self, Seq::empty())
            } else {
                let generation = next_generation(self.rules_sidebar_generation);
                (
                    SurfacesView {
                        rules_sidebar: Some(opened_sidebar(thread_id, project_root)),
                        rules_sidebar_generation: generation,
                        ..self
                    },
                    seq![SurfaceAction::LoadRules { generation, after_seconds: 0 }],
                )
            },
            _ => (self, Seq::empty()),
        }
    }

    /// Activating an overlay. It takes over the alternate screen of a sidebar; the transcript
    /// viewport is closed first.
    pub open spec fn overlay_activated(self, waiting: Waiting) -> (
        SurfacesView,
        Seq<SurfaceAction>,
    ) {
        let (closed, actions) = self.main_transcript_closed(waiting);
        if closed.rules_sidebar is Some {
            (
                SurfacesView {
                    overlay: true,
                    rules_sidebar: None,
                    rules_sidebar_generation: next_generation(self.rules_sidebar_generation),
                    ..closed
                },
                actions + seq![
                    SurfaceAction::ReleaseMouse,
                    SurfaceAction::EnableAlternateScroll,
                    SurfaceAction::ScheduleFrame,
                ],
            )
        } else {
            (
                SurfacesView { overlay: true, ..closed },
                actions + seq![SurfaceAction::EnterAlternateScreen, SurfaceAction::ScheduleFrame],
            )
        }
    }

    /// Whether the transcript viewport may open: no surface is active and no popup has the focus.
    pub open spec fn may_open_main_transcript(self, popup_active: bool) -> bool {
        !self.active() && !popup_active
    }
}

impl Surfaces {
    /// No active surface.
    pub fn new() -> (r: Self)
        ensures
            r@ == (SurfacesView {
                overlay: false,
                rules_sidebar: None,
                main_transcript: false,
                rules_sidebar_generation: 0,
            }),
    {
        Surfaces {
            overlay: false,
            rules_sidebar: None,
            main_transcript: false,
            rules_sidebar_generation: 0,
        }
    }

    /// Whether a surface has the alternate screen.
    pub fn alt_screen_surface_active(&self) -> (r: bool)
        ensures
            r == self@.active(),
    {
        self.overlay || self.rules_sidebar.is_some() || self.main_transcript
    }

    fn advance_generation(&mut self) -> (r: u64)
        ensures
            r == next_generation(old(self)@.rules_sidebar_generation),
            final(self)@ == (SurfacesView { rules_sidebar_generation: r, ..old(self)@ }),
    {
        self.rules_sidebar_generation = if self.rules_sidebar_generation == u64::MAX {
            0
        } else {
            self.rules_sidebar_generation + 1
        };
        self.rules_sidebar_generation
    }

    fn start_sidebar(&mut self, thread_id: ProcessId, project_root: String) -> (r: u64)
        ensures
            r == next_generation(old(self)@.rules_sidebar_generation),
            final(self)@ == (SurfacesView {
                rules_sidebar: Some(opened_sidebar(thread_id, project_root@)),
                rules_sidebar_generation: r,
                ..old(self)@
            }),
    {
        let generation: u64 = self.advance_generation();
        let mut state = RulesSidebarState::new(thread_id, project_root);
        state.begin_load();
        self.rules_sidebar = Some(state);
        generation
    }

    /// Closes the transcript viewport, if it is open.
    pub fn close_main_transcript_viewport(&mut self, waiting: Waiting) -> (r: Vec<SurfaceAction>)
        ensures
            (final(self)@, r@) == old(self)@.main_transcript_closed(waiting),
    {
        if !self.main_transcript {
            return Vec::new();
        }
        self.main_transcript = false;
        leave_alternate_screen(waiting)
    }

    /// Opens the rules sidebar. Without a thread the user is told that there is no session yet.
    pub fn open_rules_sidebar(
        &mut self,
        thread_id: Option<ProcessId>,
        project_root: String,
        waiting: Waiting,
    ) -> (r: Vec<SurfaceAction>)
        ensures
            (final(self)@, r@) == old(self)@.sidebar_opened(thread_id, project_root@, waiting),
    {
        let thread_id: ProcessId = match thread_id {
            Some(thread_id) => thread_id,
            None => {
                let mut out: Vec<SurfaceAction> = Vec::new();
                out.push(SurfaceAction::TellNoSession);
                assert(out@ =~= seq![SurfaceAction::TellNoSession]);
                return out;
            },
        };
        let mut out = self.close_main_transcript_viewport(waiting);
        let ghost closed = out@;
        let generation: u64 = self.start_sidebar(thread_id, project_root);
        out.push(SurfaceAction::EnterAlternateScreenWithoutScroll);
        out.push(SurfaceAction::CaptureMouseAlways);
        out.push(SurfaceAction::LoadRules { generation, after_seconds: 0 });
        out.push(SurfaceAction::ScheduleFrame);
        assert(out@ =~= closed + seq![
            SurfaceAction::EnterAlternateScreenWithoutScroll,
            SurfaceAction::CaptureMouseAlways,
            SurfaceAction::LoadRules { generation, after_seconds: 0 },
            SurfaceAction::ScheduleFrame,
        ]);
        out
    }

    /// Closes the rules sidebar, if it is open.
    pub fn close_rules_sidebar(&mut self, lines_wait: bool) -> (r: Vec<SurfaceAction>)
        ensures
            (final(self)@, r@) == old(self)@.sidebar_closed(lines_wait),
    {
        if self.rules_sidebar.is_none() {
            return Vec::new();
        }
        self.rules_sidebar = None;
        self.advance_generation();
        leave_alternate_screen(Waiting { lines: lines_wait, usage: false })
    }

    /// Takes the result of a load.
    pub fn handle_rules_sidebar_loaded(
        &mut self,
        generation: u64,
        result: Result<RulesSidebarLoad, String>,
    ) -> (r: Vec<SurfaceAction>)
        ensures
            (final(self)@, r@) == old(self)@.rules_loaded(
                generation,
                match result {
                    Ok(load) => Ok(sidebar::rule_views(load.rules@)),
                    Err(error) => Err(error@),
                },
            ),
    {
        let mut out: Vec<SurfaceAction> = Vec::new();
        if generation != self.rules_sidebar_generation {
            return out;
        }
        match self.rules_sidebar.take() {
            None => {},
            Some(state) => {
                let mut state = state;
                state.finish_load(result);
                self.rules_sidebar = Some(state);
                out.push(SurfaceAction::ScheduleFrame);
                out.push(
                    SurfaceAction::LoadRules { generation, after_seconds: RULES_POLL_SECONDS },
                );
            },
        }
        out
    }

    /// Starts the sidebar over where the thread or the project has changed.
    pub fn refresh_rules_sidebar_context_if_needed(
        &mut self,
        thread_id: Option<ProcessId>,
        project_root: String,
    ) -> (r: Vec<SurfaceAction>)
        ensures
            (final(self)@, r@) == old(self)@.context_refreshed(thread_id, project_root@),
    {
        let mut out: Vec<SurfaceAction> = Vec::new();
        let thread_id: ProcessId = match thread_id {
            Some(thread_id) => thread_id,
            None => {
                return out;
            },
        };
        let changed = match &self.rules_sidebar {
            Some(state) => !state.context_matches(thread_id, project_root.as_str()),
            None => false,
        };
        if changed {
            let generation: u64 = self.start_sidebar(thread_id, project_root);
            out.push(SurfaceAction::LoadRules { generation, after_seconds: 0 });
        }
        out
    }

    /// Activates an overlay.
    pub fn activate_overlay(&mut self, waiting: Waiting) -> (r: Vec<SurfaceAction>)
        ensures
            (final(self)@, r@) == old(self)@.overlay_activated(waiting),
    {
        let mut out = self.close_main_transcript_viewport(waiting);
        let ghost closed = out@;
        if self.rules_sidebar.is_some() {
            self.rules_sidebar = None;
            self.advance_generation();
            out.push(SurfaceAction::ReleaseMouse);
            out.push(SurfaceAction::EnableAlternateScroll);
            out.push(SurfaceAction::ScheduleFrame);
            assert(out@ =~= closed + seq![
                SurfaceAction::ReleaseMouse,
                SurfaceAction::EnableAlternateScroll,
                SurfaceAction::ScheduleFrame,
            ]);
        } else {
            out.push(SurfaceAction::EnterAlternateScreen);
            out.push(SurfaceAction::ScheduleFrame);
            assert(out@ =~= closed + seq![
                SurfaceAction::EnterAlternateScreen,
                SurfaceAction::ScheduleFrame,
            ]);
        }
        self.overlay = true;
        out
    }

    /// Closes the overlay.
    pub fn close_overlay(&mut self)
        ensures
            final(self)@ == (SurfacesView { overlay: false, ..old(self)@ }),
    {
        self.overlay = false;
    }

    /// Whether the transcript viewport may open. If so, the alternate screen is to be entered.
    pub fn may_open_main_transcript_viewport(&self, popup_active: bool) -> (r: bool)
        ensures
            r == self@.may_open_main_transcript(popup_active),
    {
        !self.alt_screen_surface_active() && !popup_active
    }

    /// Opens the transcript viewport once the alternate screen was entered.
    pub fn open_main_transcript_viewport(&mut self)
        requires
            !old(self)@.active(),
        ensures
            final(self)@ == (SurfacesView { main_transcript: true, ..old(self)@ }),
            final(self)@.exclusive(),
    {
        self.main_transcript = true;
    }

    /// Handles a key while the sidebar is open: whether it was taken, and what it asks for. A popup
    /// has the focus before the sidebar.
    pub fn handle_rules_sidebar_key(
        &mut self,
        popup_active: bool,
        pressed: SidebarKeys,
        lines_wait: bool,
    ) -> (r: (bool, Vec<SurfaceAction>))
        ensures
            (final(self)@, r.0, r.1@) == old(self)@.key_handled(popup_active, pressed, lines_wait),
    {
        let mut out: Vec<SurfaceAction> = Vec::new();
        if popup_active {
            return (false, out);
        }
        if pressed.toggle {
            let actions = self.close_rules_sidebar(lines_wait);
            return (true, actions);
        }
        if pressed.open_transcript {
            out.push(SurfaceAction::OpenTranscript);
            assert(out@ =~= seq![SurfaceAction::OpenTranscript]);
            return (true, out);
        }
        if pressed.close {
            let actions = self.close_rules_sidebar(lines_wait);
            return (true, actions);
        }
        match self.rules_sidebar.take() {
            None => (false, out),
            Some(state) => {
                let mut state = state;
                let ghost before = state@;
                let mut taken = true;
                if pressed.transcript_jump_top {
                    out.push(SurfaceAction::JumpTranscript(ScrollDestination::Top));
                } else if pressed.transcript_jump_bottom {
                    out.push(SurfaceAction::JumpTranscript(ScrollDestination::Bottom));
                } else if pressed.scroll_up {
                    state.scroll_up();
                } else if pressed.scroll_down {
                    state.scroll_down();
                } else if pressed.page_up {
                    state.page_up();
                } else if pressed.page_down {
                    state.page_down();
                } else {
                    taken = false;
                }
                assert(state@.scroll == before.scroll || taken);
                self.rules_sidebar = Some(state);
                if taken {
                    out.push(SurfaceAction::ScheduleFrame);
                }
                (taken, out)
            },
        }
    }
}

/// Which of the sidebar's bindings a key presses.
#[derive(Debug, Clone, Copy, PartialEq, Eq, Structural)]
pub struct SidebarKeys {
    pub toggle: bool,
    pub open_transcript: bool,
    pub close: bool,
    pub transcript_jump_top: bool,
    pub transcript_jump_bottom: bool,
    pub scroll_up: bool,
    pub scroll_down: bool,
    pub page_up: bool,
    pub page_down: bool,
}

/// A panel after a key, if a key scrolls it.
pub open spec fn key_scrolled(scroll: panel::PanelScroll, pressed: SidebarKeys) -> Option<
    panel::PanelScroll,
> {
    let offset = scroll.scroll_offset as int;
    let max = scroll.max_scroll as int;
    let moved = if pressed.scroll_up {
        Some(geometry::minus(offset, 1))
    } else if pressed.scroll_down {
        Some(geometry::smaller(offset + 1, max))
    } else if pressed.page_up {
        Some(geometry::minus(offset, panel::page_step(scroll)))
    } else if pressed.page_down {
        Some(geometry::smaller(offset + panel::page_step(scroll), max))
    } else {
        None
    };
    match moved {
        Some(offset) => Some(
            panel::PanelScroll { scroll_offset: offset as usize, ..scroll },
        ),
        None => None,
    }
}

impl SurfacesView {
    /// A key while the sidebar is open.
    pub open spec fn key_handled(self, popup_active: bool, pressed: SidebarKeys, lines_wait: bool) -> (
        SurfacesView,
        bool,
        Seq<SurfaceAction>,
    ) {
        if popup_active {
            (self, false, Seq::empty())
        } else if pressed.toggle || (pressed.close && !pressed.open_transcript) {
            let (closed, actions) = self.sidebar_closed(lines_wait);
            (closed, true, actions)
        } else if pressed.open_transcript {
            (self, true, seq![SurfaceAction::OpenTranscript])
        } else {
            match self.rules_sidebar {
                None => (self, false, Seq::empty()),
                Some(state) => if pressed.transcript_jump_top {
                    (
                        self,
                        true,
                        seq![
                            SurfaceAction::JumpTranscript(ScrollDestination::Top),
                            SurfaceAction::ScheduleFrame,
                        ],
                    )
                } else if pressed.transcript_jump_bottom {
                    (
                        self,
                        true,
                        seq![
                            SurfaceAction::JumpTranscript(ScrollDestination::Bottom),
                            SurfaceAction::ScheduleFrame,
                        ],
                    )
                } else {
                    match key_scrolled(state.scroll, pressed) {
                        Some(scroll) => (
                            SurfacesView {
                                rules_sidebar: Some(RulesSidebarView { scroll, ..state }),
                                ..self
                            },
                            true,
                            seq![SurfaceAction::ScheduleFrame],
                        ),
                        None => (self, false, Seq::empty()),
                    }
                },
            }
        }
    }
}

fn leave_alternate_screen(waiting: Waiting) -> (r: Vec<SurfaceAction>)
    ensures
        r@ == back_on_main_screen(waiting),
{
    let mut out: Vec<SurfaceAction> = Vec::new();
    out.push(SurfaceAction::LeaveAlternateScreen);
    out.push(SurfaceAction::CaptureMouse);
    if waiting.lines {
        out.push(SurfaceAction::WriteDeferredLines);
    }
    if waiting.usage {
        out.push(SurfaceAction::RefreshUsage);
    }
    out.push(SurfaceAction::ScheduleFrame);
    assert(out@ =~= back_on_main_screen(waiting));
    out
}

/// Whether the terminal shows the alternate screen after some actions.
pub open spec fn alternate_after(alternate: bool, actions: Seq<SurfaceAction>) -> bool
    decreases actions.len(),
{
    if actions.len() == 0 {
        alternate
    } else {
        match actions.last() {
            SurfaceAction::EnterAlternateScreen => true,
            SurfaceAction::EnterAlternateScreenWithoutScroll => true,
            SurfaceAction::LeaveAlternateScreen => false,
            _ => alternate_after(alternate, actions.drop_last()),
        }
    }
}

proof fn lemma_alternate_concat(alternate: bool, a: Seq<SurfaceAction>, b: Seq<SurfaceAction>)
    ensures
        alternate_after(alternate, a + b) == alternate_after(alternate_after(alternate, a), b),
    decreases b.len(),
{
    if b.len() == 0 {
        assert(a + b =~= a);
    } else {
        lemma_alternate_concat(alternate, a, b.drop_last());
        assert((a + b).drop_last() =~= a + b.drop_last());
    }
}

proof fn lemma_back_leaves(alternate: bool, waiting: Waiting)
    ensures
        !alternate_after(alternate, back_on_main_screen(waiting)),
{
    reveal_with_fuel(alternate_after, 6);
    let left = seq![SurfaceAction::LeaveAlternateScreen, SurfaceAction::CaptureMouse];
    let written = if waiting.lines {
        left.push(SurfaceAction::WriteDeferredLines)
    } else {
        left
    };
    let refreshed = if waiting.usage {
        written.push(SurfaceAction::RefreshUsage)
    } else {
        written
    };
    assert(left.drop_last() =~= seq![SurfaceAction::LeaveAlternateScreen]);
    assert(!alternate_after(alternate, left));
    assert(written =~= left || written.drop_last() =~= left);
    assert(!alternate_after(alternate, written));
    assert(refreshed =~= written || refreshed.drop_last() =~= written);
    assert(!alternate_after(alternate, refreshed));
    assert(back_on_main_screen(waiting).drop_last() =~= refreshed);
}

/// A surface and its screen go together: where at most one surface is active and the terminal shows
/// the alternate screen just while one is, the same holds after an overlay was activated. The
/// overlay is then the only surface.
pub proof fn law_overlay_is_the_only_surface(state: SurfacesView, waiting: Waiting)
    requires
        state.exclusive(),
    ensures
        ({
            let (after, actions) = state.overlay_activated(waiting);
            &&& after.overlay && after.rules_sidebar is None && !after.main_transcript
            &&& alternate_after(state.active(), actions)
        }),
{
    let (closed, left) = state.main_transcript_closed(waiting);
    let tail = if closed.rules_sidebar is Some {
        seq![
            SurfaceAction::ReleaseMouse,
            SurfaceAction::EnableAlternateScroll,
            SurfaceAction::ScheduleFrame,
        ]
    } else {
        seq![SurfaceAction::EnterAlternateScreen, SurfaceAction::ScheduleFrame]
    };
    lemma_alternate_concat(state.active(), left, tail);
    reveal_with_fuel(alternate_after, 4);
    assert(tail.drop_last().drop_last().drop_last() =~= Seq::empty() || tail.len() == 2);
    if closed.rules_sidebar is Some {
        assert(tail.drop_last() =~= seq![
            SurfaceAction::ReleaseMouse,
            SurfaceAction::EnableAlternateScroll,
        ]);
        assert(tail.drop_last().drop_last() =~= seq![SurfaceAction::ReleaseMouse]);
    } else {
        assert(tail.drop_last() =~= seq![SurfaceAction::EnterAlternateScreen]);
    }
}

/// Opening the sidebar keeps surface and screen together, where no overlay is active.
pub proof fn law_sidebar_has_the_alternate_screen(
    state: SurfacesView,
    thread_id: ProcessId,
    project_root: Seq<char>,
    waiting: Waiting,
)
    requires
        state.exclusive(),
        !state.overlay,
    ensures
        ({
            let (after, actions) = state.sidebar_opened(Some(thread_id), project_root, waiting);
            &&& after.exclusive() && after.rules_sidebar is Some
            &&& alternate_after(state.active(), actions)
        }),
{
    let (after, actions) = state.sidebar_opened(Some(thread_id), project_root, waiting);
    reveal_with_fuel(alternate_after, 5);
    let n = actions.len() as int;
    assert(actions[n - 4] == SurfaceAction::EnterAlternateScreenWithoutScroll);
    assert(actions.drop_last().last() == actions[n - 2]);
    assert(actions.drop_last().drop_last().last() == actions[n - 3]);
    assert(actions.drop_last().drop_last().drop_last().last() == actions[n - 4]);
}

/// Closing the sidebar, or the transcript viewport, gives the main screen back.
pub proof fn law_closing_gives_the_main_screen_back(
    state: SurfacesView,
    lines_wait: bool,
    waiting: Waiting,
)
    requires
        state.exclusive(),
    ensures
        ({
            let (after, actions) = state.sidebar_closed(lines_wait);
            &&& after.exclusive() && after.rules_sidebar is None
            &&& alternate_after(state.active(), actions) == after.active()
        }),
        ({
            let (after, actions) = state.main_transcript_closed(waiting);
            &&& after.exclusive() && !after.main_transcript
            &&& alternate_after(state.active(), actions) == after.active()
        }),
{
    lemma_back_leaves(state.active(), waiting);
    lemma_back_leaves(state.active(), Waiting { lines: lines_wait, usage: false });
}

/// A load that was started before the sidebar was closed, replaced or started over does nothing
/// when it ends.
pub proof fn law_stale_load_is_ignored(
    state: SurfacesView,
    lines_wait: bool,
    waiting: Waiting,
    thread_id: Option<ProcessId>,
    project_root: Seq<char>,
    result: Result<Seq<sidebar::RuleItemView>, Seq<char>>,
)
    requires
        state.rules_sidebar is Some,
    ensures
        ({
            let generation = state.rules_sidebar_generation;
            let closed = state.sidebar_closed(lines_wait).0;
            let replaced = state.overlay_activated(waiting).0;
            let restarted = state.context_refreshed(thread_id, project_root).0;
            &&& closed.rules_loaded(generation, result) == (closed, Seq::<SurfaceAction>::empty())
            &&& replaced.rules_loaded(generation, result) == (
                replaced,
                Seq::<SurfaceAction>::empty(),
            )
            &&& restarted != state ==> restarted.rules_loaded(generation, result) == (
                restarted,
                Seq::<SurfaceAction>::empty(),
            )
        }),
{
}

/// While a popup has the focus no key changes the surfaces.
pub proof fn law_popup_has_the_focus(state: SurfacesView, pressed: SidebarKeys, lines_wait: bool)
    ensures
        state.key_handled(true, pressed, lines_wait) == (
            state,
            false,
            Seq::<SurfaceAction>::empty(),
        ),
{
}

/// A pasted text as the composer takes it: its line ends are line feeds.
pub open spec fn pasted(text: Seq<char>) -> Seq<char> {
    Seq::new(
        text.len(),
        |i: int|
            if text[i] == '\r' {
                '\n'
            } else {
                text[i]
            },
    )
}

/// Makes a pasted text one that the composer takes.
pub fn pasted_text(text: &str) -> (r: String)
    ensures
        r@ == pasted(text@),
{
    let chars = text::to_chars(text);
    let mut out = String::new();
    let mut i: usize = 0;
    while i < chars.len()
        invariant
            i <= chars@.len(),
            out@.len() == i,
            forall|j: int| 0 <= j < i ==> (#[trigger] out@[j]) == pasted(chars@)[j],
        decreases chars@.len() - i,
    {
        let c: char = chars[i];
        out.push(
            if c == '\r' {
                '\n'
            } else {
                c
            },
        );
        i = i + 1;
    }
    assert(out@ =~= pasted(text@));
    out
}

/// A generation is followed by another one, and counting starts over at the largest.
pub proof fn law_generation_moves_on(generation: u64)
    ensures
        next_generation(generation) != generation,
        generation < u64::MAX ==> next_generation(generation) == generation + 1,
        generation == u64::MAX ==> next_generation(generation) == 0,
{
}

/// Back on the main screen the mouse is captured as before, the lines that wait are written exactly if
/// there are any, the usage is refreshed exactly if that waits, and a frame is drawn last.
pub proof fn law_what_waits_is_done_on_the_main_screen(waiting: Waiting)
    ensures
        ({
            let actions = back_on_main_screen(waiting);
            &&& actions[0] == SurfaceAction::LeaveAlternateScreen
            &&& actions[1] == SurfaceAction::CaptureMouse
            &&& waiting.lines ==> actions[2] == SurfaceAction::WriteDeferredLines
            &&& waiting.usage && waiting.lines ==> actions[3] == SurfaceAction::RefreshUsage
            &&& waiting.usage && !waiting.lines ==> actions[2] == SurfaceAction::RefreshUsage
            &&& actions.last() == SurfaceAction::ScheduleFrame
            &&& actions.len() == 3 + (if waiting.lines {
                1int
            } else {
                0
            }) + (if waiting.usage {
                1int
            } else {
                0
            })
        }),
{
}

/// A sidebar that opens is that of the thread and of the project, shows nothing yet and loads its rules at
/// once, under a generation of its own. The transcript viewport is closed first.
pub proof fn law_sidebar_opens_for_the_thread(
    state: SurfacesView,
    thread_id: ProcessId,
    project_root: Seq<char>,
    waiting: Waiting,
)
    ensures
        ({
            let (after, actions) = state.sidebar_opened(Some(thread_id), project_root, waiting);
            let first: int = if state.main_transcript {
                back_on_main_screen(waiting).len() as int
            } else {
                0
            };
            &&& after.rules_sidebar matches Some(sidebar) && {
                &&& sidebar.thread_id == thread_id
                &&& sidebar.project_root == project_root
                &&& sidebar.rules.len() == 0
                &&& sidebar.error is None
                &&& sidebar.loading
                &&& sidebar.scroll.scroll_offset == 0 && sidebar.scroll.max_scroll == 0
                &&& sidebar.scroll.page_height == 1
                &&& sidebar.plan.scroll_offset == 0 && sidebar.plan.max_scroll == 0
                &&& sidebar.plan.page_height == 0
            }
            &&& after.rules_sidebar_generation != state.rules_sidebar_generation
            &&& !after.main_transcript
            &&& after.overlay == state.overlay
            &&& actions.len() == first + 4
            &&& forall|i: int|
                0 <= i < first ==> #[trigger] actions[i] == back_on_main_screen(waiting)[i]
            &&& actions[first] == SurfaceAction::EnterAlternateScreenWithoutScroll
            &&& actions[first + 1] == SurfaceAction::CaptureMouseAlways
            &&& actions[first + 2] == (SurfaceAction::LoadRules {
                generation: after.rules_sidebar_generation,
                after_seconds: 0,
            })
            &&& actions[first + 3] == SurfaceAction::ScheduleFrame
        }),
        state.sidebar_opened(None, project_root, waiting).0 == state,
        state.sidebar_opened(None, project_root, waiting).1.len() == 1,
        state.sidebar_opened(None, project_root, waiting).1[0] == SurfaceAction::TellNoSession,
{
}

/// Closing a surface closes that one alone. Where it was not open nothing happens.
pub proof fn law_closing_closes_one_surface(
    state: SurfacesView,
    lines_wait: bool,
    waiting: Waiting,
)
    ensures
        ({
            let (after, actions) = state.sidebar_closed(lines_wait);
            &&& after.rules_sidebar is None
            &&& after.overlay == state.overlay && after.main_transcript == state.main_transcript
            &&& state.rules_sidebar is None ==> after == state && actions.len() == 0
            &&& state.rules_sidebar is Some ==> after.rules_sidebar_generation
                != state.rules_sidebar_generation && actions == back_on_main_screen(
                Waiting { lines: lines_wait, usage: false },
            )
        }),
        ({
            let (after, actions) = state.main_transcript_closed(waiting);
            &&& !after.main_transcript
            &&& after.overlay == state.overlay && after.rules_sidebar == state.rules_sidebar
            &&& after.rules_sidebar_generation == state.rules_sidebar_generation
            &&& !state.main_transcript ==> actions.len() == 0
            &&& state.main_transcript ==> actions == back_on_main_screen(waiting)
        }),
{
}

/// The rules of the load that is awaited are shown, its error is shown beside the rules that were there,
/// and the next load starts two seconds later under the same generation.
pub proof fn law_load_is_shown_and_repeated(
    state: SurfacesView,
    result: Result<Seq<sidebar::RuleItemView>, Seq<char>>,
)
    requires
        state.rules_sidebar is Some,
    ensures
        ({
            let before = state.rules_sidebar.unwrap();
            let (after, actions) = state.rules_loaded(state.rules_sidebar_generation, result);
            &&& after.rules_sidebar matches Some(sidebar) && {
                &&& !sidebar.loading
                &&& result matches Ok(rules) ==> sidebar.rules == rules && sidebar.error is None
                &&& result matches Err(error) ==> sidebar.rules == before.rules && sidebar.error
                    == Some(error)
                &&& sidebar.thread_id == before.thread_id
                &&& sidebar.project_root == before.project_root
                &&& sidebar.scroll == before.scroll && sidebar.plan == before.plan
            }
            &&& after.overlay == state.overlay && after.main_transcript == state.main_transcript
            &&& after.rules_sidebar_generation == state.rules_sidebar_generation
            &&& actions.len() == 2
            &&& actions[0] == SurfaceAction::ScheduleFrame
            &&& actions[1] == (SurfaceAction::LoadRules {
                generation: state.rules_sidebar_generation,
                after_seconds: 2,
            })
        }),
{
}

/// A load of another generation, or one without a sidebar, changes nothing.
pub proof fn law_other_loads_change_nothing(
    state: SurfacesView,
    generation: u64,
    result: Result<Seq<sidebar::RuleItemView>, Seq<char>>,
)
    requires
        state.rules_sidebar is None || generation != state.rules_sidebar_generation,
    ensures
        state.rules_loaded(generation, result).0 == state,
        state.rules_loaded(generation, result).1.len() == 0,
{
}

/// A sidebar follows the thread and the project: for another one it starts over with a load under a new
/// generation, and else it stays as it is.
pub proof fn law_sidebar_follows_the_thread(
    state: SurfacesView,
    thread_id: ProcessId,
    project_root: Seq<char>,
)
    ensures
        ({
            let (after, actions) = state.context_refreshed(Some(thread_id), project_root);
            &&& after.rules_sidebar is Some <==> state.rules_sidebar is Some
            &&& after.rules_sidebar matches Some(sidebar) ==> sidebar.thread_id == thread_id
                && sidebar.project_root == project_root
            &&& after.overlay == state.overlay && after.main_transcript == state.main_transcript
            &&& state.rules_sidebar is None ==> after == state && actions.len() == 0
            &&& state.rules_sidebar matches Some(before) ==> {
                let same = before.thread_id == thread_id && before.project_root == project_root;
                &&& same ==> after == state && actions.len() == 0
                &&& !same ==> after.rules_sidebar_generation != state.rules_sidebar_generation
                &&& !same ==> after.rules_sidebar.unwrap().rules.len() == 0
                    && after.rules_sidebar.unwrap().error is None
                    && after.rules_sidebar.unwrap().loading
                &&& !same ==> actions.len() == 1 && actions[0] == (SurfaceAction::LoadRules {
                    generation: after.rules_sidebar_generation,
                    after_seconds: 0,
                })
            }
        }),
        state.context_refreshed(None, project_root).0 == state,
        state.context_refreshed(None, project_root).1.len() == 0,
{
}

/// An overlay takes the alternate screen over from a sidebar, which is gone then, with the mouse released
/// and the wheel sent as keys again. Without a sidebar it enters the alternate screen.
pub proof fn law_overlay_takes_the_screen_over(state: SurfacesView, waiting: Waiting)
    ensures
        ({
            let (after, actions) = state.overlay_activated(waiting);
            let first: int = if state.main_transcript {
                back_on_main_screen(waiting).len() as int
            } else {
                0
            };
            &&& after.overlay && after.rules_sidebar is None && !after.main_transcript
            &&& state.rules_sidebar is Some ==> {
                &&& after.rules_sidebar_generation != state.rules_sidebar_generation
                &&& actions.len() == first + 3
                &&& actions[first] == SurfaceAction::ReleaseMouse
                &&& actions[first + 1] == SurfaceAction::EnableAlternateScroll
                &&& actions[first + 2] == SurfaceAction::ScheduleFrame
            }
            &&& state.rules_sidebar is None ==> {
                &&& after.rules_sidebar_generation == state.rules_sidebar_generation
                &&& actions.len() == first + 2
                &&& actions[first] == SurfaceAction::EnterAlternateScreen
                &&& actions[first + 1] == SurfaceAction::ScheduleFrame
            }
        }),
{
}

/// The transcript viewport opens only over the plain main screen: without an overlay, a sidebar, an open
/// viewport and a popup.
pub proof fn law_viewport_opens_over_the_main_screen(state: SurfacesView, popup_active: bool)
    ensures
        state.may_open_main_transcript(popup_active) <==> !state.overlay && state.rules_sidebar
            is None && !state.main_transcript && !popup_active,
        state.active() <==> state.overlay || state.rules_sidebar is Some || state.main_transcript,
{
}

/// A key scrolls by one line or by one page, up to the start and down to the largest offset. Up counts
/// before down and a line before a page, and another key scrolls nothing.
pub proof fn law_keys_scroll_within_the_content(
    scroll: panel::PanelScroll,
    pressed: SidebarKeys,
)
    requires
        scroll.scroll_offset <= scroll.max_scroll,
    ensures
        ({
            let moved = key_scrolled(scroll, pressed);
            let page: int = if scroll.page_height == 0 {
                1
            } else {
                scroll.page_height as int
            };
            let offset = scroll.scroll_offset as int;
            let max = scroll.max_scroll as int;
            &&& moved is None <==> !pressed.scroll_up && !pressed.scroll_down && !pressed.page_up
                && !pressed.page_down
            &&& moved matches Some(after) ==> {
                &&& after.max_scroll == scroll.max_scroll
                &&& after.page_height == scroll.page_height
                &&& after.scroll_offset <= after.max_scroll
                &&& pressed.scroll_up ==> after.scroll_offset == (if offset > 0 {
                    offset - 1
                } else {
                    0
                })
                &&& !pressed.scroll_up && pressed.scroll_down ==> after.scroll_offset == (if offset
                    < max {
                    offset + 1
                } else {
                    max
                })
                &&& !pressed.scroll_up && !pressed.scroll_down && pressed.page_up
                    ==> after.scroll_offset == (if offset > page {
                    offset - page
                } else {
                    0
                })
                &&& !pressed.scroll_up && !pressed.scroll_down && !pressed.page_up
                    && pressed.page_down ==> after.scroll_offset == (if offset + page < max {
                    offset + page
                } else {
                    max
                })
            }
        }),
{
}

/// Without a popup the toggle closes the sidebar, whatever else is pressed; the transcript opens before the
/// sidebar is closed; and a key that jumps, or scrolls, changes nothing but that and draws a frame.
pub proof fn law_key_does_what_it_is_bound_to(
    state: SurfacesView,
    sidebar: RulesSidebarView,
    pressed: SidebarKeys,
    lines_wait: bool,
)
    requires
        state.rules_sidebar == Some(sidebar),
    ensures
        ({
            let (after, taken, actions) = state.key_handled(false, pressed, lines_wait);
            let plain = !pressed.toggle && !pressed.open_transcript && !pressed.close;
            let jumps = pressed.transcript_jump_top || pressed.transcript_jump_bottom;
            let scrolls = pressed.scroll_up || pressed.scroll_down || pressed.page_up
                || pressed.page_down;
            &&& pressed.toggle ==> taken && after.rules_sidebar is None
            &&& !pressed.toggle && pressed.open_transcript ==> taken && after == state
                && actions.len() == 1 && actions[0] == SurfaceAction::OpenTranscript
            &&& !pressed.toggle && !pressed.open_transcript && pressed.close ==> taken
                && after.rules_sidebar is None
            &&& plain && pressed.transcript_jump_top ==> taken && after == state && actions.len()
                == 2 && actions[0] == SurfaceAction::JumpTranscript(ScrollDestination::Top)
                && actions[1] == SurfaceAction::ScheduleFrame
            &&& plain && !pressed.transcript_jump_top && pressed.transcript_jump_bottom ==> taken
                && after == state && actions.len() == 2 && actions[0]
                == SurfaceAction::JumpTranscript(ScrollDestination::Bottom) && actions[1]
                == SurfaceAction::ScheduleFrame
            &&& plain && !jumps && scrolls ==> {
                &&& taken && actions.len() == 1 && actions[0] == SurfaceAction::ScheduleFrame
                &&& after.rules_sidebar matches Some(moved) && {
                    &&& Some(moved.scroll) == key_scrolled(sidebar.scroll, pressed)
                    &&& moved.rules == sidebar.rules && moved.error == sidebar.error
                    &&& moved.loading == sidebar.loading && moved.plan == sidebar.plan
                    &&& moved.thread_id == sidebar.thread_id
                    &&& moved.project_root == sidebar.project_root
                }
                &&& after.overlay == state.overlay && after.main_transcript
                    == state.main_transcript
                &&& after.rules_sidebar_generation == state.rules_sidebar_generation
            }
            &&& plain && !jumps && !scrolls ==> !taken && after == state && actions.len() == 0
        }),
{
}

/// A pasted text keeps every character but the carriage returns, which are line feeds then.
pub proof fn law_pasted_text_has_line_feeds(text: Seq<char>)
    ensures
        pasted(text).len() == text.len(),
        forall|i: int|
            0 <= i < text.len() ==> #[trigger] pasted(text)[i] == (if text[i] == '\r' {
                '\n'
            } else {
                text[i]
            }),
{
}

} // verus!
