//! The rules sidebar: where it stands, what it shows and how it scrolls.
use crate::geometry::{Position, Rect};
use crate::ids::ProcessId;
use crate::panel::{PanelFrame, PanelScroll};
use crate::session::StepStatus;
use crate::{geometry, panel, text};
use vstd::prelude::*;

verus! {

/// The smallest screen that is split for the sidebar.
pub const RULES_SIDEBAR_MIN_SPLIT_WIDTH: u16 = 112;

/// The smallest width of the sidebar.
pub const RULES_SIDEBAR_MIN_WIDTH: u16 = 40;

/// The largest width of the sidebar.
pub const RULES_SIDEBAR_MAX_WIDTH: u16 = 64;

/// How long the rules may take to load.
pub const RULES_LOAD_TIMEOUT_SECONDS: u64 = 2;

/// The largest output that is read, in bytes.
pub const MAX_RULES_OUTPUT_BYTES: usize = 1048576;

/// The most rules that are taken.
pub const MAX_RULES: usize = 256;

/// A rule.
#[derive(Debug, PartialEq, Eq)]
pub struct RuleItem {
    pub title: String,
    pub content: String,
}

/// The view of [`RuleItem`].
#[verifier::ext_equal]
pub struct RuleItemView {
    pub title: Seq<char>,
    pub content: Seq<char>,
}

impl View for RuleItem {
    type V = RuleItemView;

    open spec fn view(&self) -> RuleItemView {
        RuleItemView { title: self.title@, content: self.content@ }
    }
}

/// The views of some rules.
pub open spec fn rule_views(rules: Seq<RuleItem>) -> Seq<RuleItemView> {
    Seq::new(rules.len(), |i: int| rules[i]@)
}

/// Rules that were loaded.
#[derive(Debug, PartialEq, Eq)]
pub struct RulesSidebarLoad {
    pub rules: Vec<RuleItem>,
}

/// What the rule list reports.
#[derive(Debug, PartialEq, Eq)]
pub struct RuleListOutput {
    pub session_id: String,
    pub rule_count: usize,
    pub rules: Vec<RuleItem>,
}

/// Where the parts of a split screen stand.
#[derive(Debug, Clone, Copy, PartialEq, Eq, Structural)]
pub struct RulesSidebarLayout {
    pub timeline: Rect,
    pub bottom: Rect,
    pub divider: Rect,
    pub rules: Rect,
    pub plan: Option<Rect>,
    pub plan_divider: Option<Rect>,
}

/// A direction of scrolling.
#[derive(Debug, Clone, Copy, PartialEq, Eq, Structural)]
pub enum ScrollDirection {
    Up,
    Down,
}

/// What the wheel moved.
#[derive(Debug, Clone, Copy, PartialEq, Eq, Structural)]
pub enum MouseScroll {
    /// Nothing: the event is not for the sidebar.
    Ignored,
    /// The transcript is to be scrolled.
    Transcript(ScrollDirection),
    /// The plan was scrolled.
    Plan,
}

/// The height of the plan below the rules: half of what the divider leaves, where the rules get the
/// odd row. The plan keeps at least one row: where the divider leaves but one, the plan gets it.
pub open spec fn plan_height(area: Rect) -> int {
    if area.height == 2 {
        1
    } else {
        geometry::minus(area.height as int, 1) / 2
    }
}

/// The row of the divider between rules and plan.
pub open spec fn plan_divider_area(area: Rect) -> Rect {
    geometry::placed(
        area.x as int,
        geometry::minus(geometry::smaller(area.y + area.height, 65535), plan_height(area) + 1),
        area.width as int,
        1,
    )
}

/// The area of the rules above a plan.
pub open spec fn rules_above_plan(area: Rect) -> Rect {
    geometry::placed(
        area.x as int,
        area.y as int,
        area.width as int,
        geometry::minus(area.height as int, plan_height(area) + 1),
    )
}

/// The area of the plan.
pub open spec fn plan_area(area: Rect) -> Rect {
    let divider = plan_divider_area(area);
    geometry::placed(
        area.x as int,
        geometry::smaller(divider.y + divider.height, 65535),
        area.width as int,
        plan_height(area),
    )
}

/// Splits the sidebar into the rules, a divider and the plan.
pub fn split_sidebar_area(area: Rect) -> (r: (Rect, Rect, Rect))
    ensures
        r == (rules_above_plan(area), plan_divider_area(area), plan_area(area)),
        area.height >= 2 ==> r.2.height >= 1,
{
    let plan_height: u16 = if area.height == 2 {
        1
    } else {
        area.height.saturating_sub(1) / 2
    };
    let divider = Rect::new(
        area.x,
        area.bottom().saturating_sub(plan_height + 1),
        area.width,
        1,
    );
    let rules = Rect::new(
        area.x,
        area.y,
        area.width,
        area.height.saturating_sub(plan_height + 1),
    );
    let plan = Rect::new(area.x, divider.bottom(), area.width, plan_height);
    (rules, divider, plan)
}

/// Rules, divider and plan are stacked over the sidebar without gap or overlap. The plan keeps at
/// least one row, and where there is more than one to share, the rules get the odd row.
pub proof fn law_plan_keeps_a_row_and_rules_get_the_odd_one(area: Rect)
    requires
        area.on_screen(),
        area.height >= 2,
    ensures
        ({
            let rules = rules_above_plan(area);
            let divider = plan_divider_area(area);
            let plan = plan_area(area);
            &&& rules.x == area.x && divider.x == area.x && plan.x == area.x
            &&& rules.width == area.width && divider.width == area.width && plan.width
                == area.width
            &&& rules.y == area.y
            &&& divider.y == rules.y + rules.height && divider.height == 1
            &&& plan.y == divider.y + 1
            &&& plan.y + plan.height == area.y + area.height
            &&& plan.height >= 1
            &&& area.height >= 3 ==> rules.height - plan.height == (area.height - 1) % 2
        }),
{
}

/// The width of the sidebar: a third of the screen, within its bounds.
pub open spec fn sidebar_width(total: int) -> int {
    if total / 3 < RULES_SIDEBAR_MIN_WIDTH {
        RULES_SIDEBAR_MIN_WIDTH as int
    } else if total / 3 > RULES_SIDEBAR_MAX_WIDTH {
        RULES_SIDEBAR_MAX_WIDTH as int
    } else {
        total / 3
    }
}

/// Computes the width of the sidebar.
pub fn rules_sidebar_width(total_width: u16) -> (r: u16)
    ensures
        r == sidebar_width(total_width as int),
{
    let third: u16 = total_width / 3;
    if third < RULES_SIDEBAR_MIN_WIDTH {
        RULES_SIDEBAR_MIN_WIDTH
    } else if third > RULES_SIDEBAR_MAX_WIDTH {
        RULES_SIDEBAR_MAX_WIDTH
    } else {
        third
    }
}

/// The first column of the sidebar.
pub open spec fn sidebar_x(area: Rect) -> int {
    geometry::smaller(area.x + area.width, 65535) - sidebar_width(area.width as int)
}

/// The area left of the divider.
pub open spec fn left_area(area: Rect) -> Rect {
    geometry::placed(
        area.x as int,
        area.y as int,
        geometry::minus(sidebar_x(area) - 1, area.x as int),
        area.height as int,
    )
}

/// The area right of the divider.
pub open spec fn right_area(area: Rect) -> Rect {
    geometry::placed(
        sidebar_x(area),
        area.y as int,
        sidebar_width(area.width as int),
        area.height as int,
    )
}

/// The parts of a screen with a bottom pane of some height. A narrow screen is not split.
pub open spec fn layout_of(area: Rect, has_plan: bool, bottom_pane_height: u16) -> Option<
    RulesSidebarLayout,
> {
    if area.width < RULES_SIDEBAR_MIN_SPLIT_WIDTH {
        None
    } else {
        let left = left_area(area);
        let right = right_area(area);
        let bottom_height = geometry::smaller(bottom_pane_height as int, left.height as int);
        let timeline_height = left.height - bottom_height;
        Some(
            RulesSidebarLayout {
                timeline: geometry::placed(
                    left.x as int,
                    left.y as int,
                    left.width as int,
                    timeline_height,
                ),
                bottom: geometry::placed(
                    left.x as int,
                    geometry::smaller(left.y + timeline_height, 65535),
                    left.width as int,
                    bottom_height,
                ),
                divider: geometry::placed(
                    sidebar_x(area) - 1,
                    area.y as int,
                    1,
                    area.height as int,
                ),
                rules: if has_plan {
                    rules_above_plan(right)
                } else {
                    right
                },
                plan: if has_plan {
                    Some(plan_area(right))
                } else {
                    None
                },
                plan_divider: if has_plan {
                    Some(plan_divider_area(right))
                } else {
                    None
                },
            },
        )
    }
}

/// The width for which the height of the bottom pane is asked, if the screen is split.
pub fn bottom_pane_width(area: Rect) -> (r: Option<u16>)
    ensures
        r == (if area.width < RULES_SIDEBAR_MIN_SPLIT_WIDTH {
            None
        } else {
            Some(left_area(area).width)
        }),
{
    if area.width < RULES_SIDEBAR_MIN_SPLIT_WIDTH {
        None
    } else {
        Some(left_part(area).width)
    }
}

fn left_part(area: Rect) -> (r: Rect)
    requires
        area.width >= RULES_SIDEBAR_MIN_SPLIT_WIDTH,
    ensures
        r == left_area(area),
{
    let rules_x: u16 = area.right().saturating_sub(rules_sidebar_width(area.width));
    let divider_x: u16 = rules_x.saturating_sub(1);
    Rect::new(area.x, area.y, divider_x.saturating_sub(area.x), area.height)
}

/// Lays the screen out.
pub fn rules_sidebar_layout(area: Rect, has_plan: bool, bottom_pane_height: u16) -> (r: Option<
    RulesSidebarLayout,
>)
    ensures
        r == layout_of(area, has_plan, bottom_pane_height),
{
    if area.width < RULES_SIDEBAR_MIN_SPLIT_WIDTH {
        return None;
    }
    let width: u16 = rules_sidebar_width(area.width);
    let rules_x: u16 = area.right().saturating_sub(width);
    let divider = Rect::new(rules_x.saturating_sub(1), area.y, 1, area.height);
    let left = left_part(area);
    let sidebar = Rect::new(rules_x, area.y, width, area.height);
    let (rules, plan_divider, plan) = if has_plan {
        let (rules, plan_divider, plan) = split_sidebar_area(sidebar);
        (rules, Some(plan_divider), Some(plan))
    } else {
        (sidebar, None, None)
    };
    let bottom_height: u16 = if bottom_pane_height < left.height {
        bottom_pane_height
    } else {
        left.height
    };
    let timeline_height: u16 = left.height - bottom_height;
    let timeline = Rect::new(left.x, left.y, left.width, timeline_height);
    let bottom = Rect::new(
        left.x,
        left.y.saturating_add(timeline_height),
        left.width,
        bottom_height,
    );
    Some(RulesSidebarLayout { timeline, bottom, divider, rules, plan, plan_divider })
}

/// How many of the parts of a screen cover a cell.
pub open spec fn parts_at(layout: RulesSidebarLayout, position: Position) -> int {
    one(layout.timeline.covers(position)) + one(layout.bottom.covers(position)) + one(
        layout.divider.covers(position),
    ) + one(layout.rules.covers(position)) + one(
        layout.plan is Some && layout.plan.unwrap().covers(position),
    ) + one(layout.plan_divider is Some && layout.plan_divider.unwrap().covers(position))
}

/// One for what holds, and nothing else.
pub open spec fn one(holds: bool) -> int {
    if holds {
        1
    } else {
        0
    }
}

/// The parts of a split screen tile it: each cell of the screen lies in one of them, and no part
/// reaches beyond the screen.
pub proof fn law_sidebar_parts_tile_the_screen(
    area: Rect,
    has_plan: bool,
    bottom_pane_height: u16,
    position: Position,
)
    requires
        area.on_screen(),
        area.width >= RULES_SIDEBAR_MIN_SPLIT_WIDTH,
        area.height >= 1,
    ensures
        ({
            let layout = layout_of(area, has_plan, bottom_pane_height).unwrap();
            parts_at(layout, position) == one(area.covers(position))
        }),
{
    lemma_split_tiles(right_area(area), position);
}

/// Rules, divider and plan tile the sidebar.
proof fn lemma_split_tiles(area: Rect, position: Position)
    requires
        area.on_screen(),
        area.height >= 1,
    ensures
        one(rules_above_plan(area).covers(position)) + one(
            plan_divider_area(area).covers(position),
        ) + one(plan_area(area).covers(position)) == one(area.covers(position)),
{
}

/// How a line looks.
#[derive(Debug, Clone, Copy, PartialEq, Eq, Structural)]
pub enum LineStyle {
    Plain,
    Bold,
    Dim,
    Red,
}

/// A line of the rules.
#[derive(Debug, PartialEq, Eq)]
pub struct RuleLine {
    pub style: LineStyle,
    pub text: String,
}

/// The view of [`RuleLine`].
#[verifier::ext_equal]
pub struct RuleLineView {
    pub style: LineStyle,
    pub text: Seq<char>,
}

impl View for RuleLine {
    type V = RuleLineView;

    open spec fn view(&self) -> RuleLineView {
        RuleLineView { style: self.style, text: self.text@ }
    }
}

/// The views of some lines.
pub open spec fn line_views(lines: Seq<RuleLine>) -> Seq<RuleLineView> {
    Seq::new(lines.len(), |i: int| lines[i]@)
}

/// A part of the rules before it is fitted to a width.
#[derive(Debug, PartialEq, Eq)]
pub struct RuleBlock {
    pub style: LineStyle,
    pub text: String,
    /// Whether the text is wrapped. Else it is one line.
    pub wraps: bool,
}

/// The view of [`RuleBlock`].
#[verifier::ext_equal]
pub struct RuleBlockView {
    pub style: LineStyle,
    pub text: Seq<char>,
    pub wraps: bool,
}

impl View for RuleBlock {
    type V = RuleBlockView;

    open spec fn view(&self) -> RuleBlockView {
        RuleBlockView { style: self.style, text: self.text@, wraps: self.wraps }
    }
}

/// The views of some parts.
pub open spec fn block_views(blocks: Seq<RuleBlock>) -> Seq<RuleBlockView> {
    Seq::new(blocks.len(), |i: int| blocks[i]@)
}

/// The state of the sidebar.
#[derive(Debug, PartialEq, Eq)]
pub struct RulesSidebarState {
    pub thread_id: ProcessId,
    pub project_root: String,
    pub rules: Vec<RuleItem>,
    pub error: Option<String>,
    pub loading: bool,
    pub scroll: PanelScroll,
    pub plan: PanelScroll,
}

/// The view of [`RulesSidebarState`].
#[verifier::ext_equal]
pub struct RulesSidebarView {
    pub thread_id: ProcessId,
    pub project_root: Seq<char>,
    pub rules: Seq<RuleItemView>,
    pub error: Option<Seq<char>>,
    pub loading: bool,
    pub scroll: PanelScroll,
    pub plan: PanelScroll,
}

impl View for RulesSidebarState {
    type V = RulesSidebarView;

    open spec fn view(&self) -> RulesSidebarView {
        RulesSidebarView {
            thread_id: self.thread_id,
            project_root: self.project_root@,
            rules: rule_views(self.rules@),
            error: text::opt_text(self.error),
            loading: self.loading,
            scroll: self.scroll,
            plan: self.plan,
        }
    }
}

/// What is drawn of the rules.
#[derive(Debug, PartialEq, Eq)]
pub struct RulesPanel {
    pub frame: PanelFrame,
    pub header: String,
    pub lines: Vec<RuleLine>,
    pub footer: String,
}

/// What is drawn of the plan, around the checklist.
#[derive(Debug, PartialEq, Eq)]
pub struct PlanPanel {
    pub frame: PanelFrame,
    pub header: String,
    pub footer: String,
}

/// A plan: how far its steps are, and how many lines the checklist takes in the content area.
#[derive(Debug, PartialEq, Eq)]
pub struct PlanContent {
    pub steps: Vec<StepStatus>,
    pub line_count: usize,
}

/// A drawn sidebar.
#[derive(Debug, PartialEq, Eq)]
pub struct SidebarFrame {
    /// The parts of the screen, if it is split.
    pub layout: Option<RulesSidebarLayout>,
    pub plan_divider: Option<Rect>,
    pub rules: Option<RulesPanel>,
    pub plan: Option<PlanPanel>,
}

/// The number of completed steps.
pub open spec fn completed(steps: Seq<StepStatus>) -> nat
    decreases steps.len(),
{
    if steps.len() == 0 {
        0
    } else {
        completed(steps.drop_last()) + if steps.last() == StepStatus::Completed {
            1nat
        } else {
            0nat
        }
    }
}

/// The header of a plan: how many of its steps are completed.
pub open spec fn plan_header(steps: Seq<StepStatus>) -> Seq<char> {
    "Plan  "@ + text::decimal(completed(steps)) + "/"@ + text::decimal(steps.len())
}

/// The footer of a plan.
pub open spec fn plan_footer(scroll: PanelScroll) -> Seq<char> {
    if scroll.max_scroll == 0 {
        ""@
    } else {
        "Mouse wheel scroll"@
    }
}

/// What is drawn of a plan into an area, and where it is scrolled to. Nothing is drawn into an empty
/// area.
pub open spec fn plan_drawn(
    before: PanelScroll,
    area: Rect,
    steps: Seq<StepStatus>,
    line_count: usize,
    drawn: Option<PlanPanel>,
    after: PanelScroll,
) -> bool {
    if area.width == 0 || area.height == 0 {
        drawn is None && after == before
    } else {
        &&& after == before.fitted(line_count as nat, panel::content_area_of(area).height as nat)
        &&& drawn matches Some(panel) && {
            &&& panel.frame == panel::frame_of(area, after, line_count)
            &&& panel.header@ == plan_header(steps)
            &&& panel.footer@ == plan_footer(after)
        }
    }
}

/// What is drawn of the rules into an area, and where they are scrolled to. Nothing is drawn into an
/// empty area.
pub open spec fn rules_drawn(
    before: RulesSidebarView,
    area: Rect,
    drawn: Option<RulesPanel>,
    after: PanelScroll,
) -> bool {
    if area.width == 0 || area.height == 0 {
        drawn is None && after == before.scroll
    } else {
        let content = panel::content_area_of(area);
        drawn matches Some(panel) && {
            &&& line_views(panel.lines@) == fitted_lines(
                state_blocks(before),
                line_width(content.width),
            )
            &&& after == before.scroll.fitted(panel.lines@.len(), content.height as nat)
            &&& panel.frame == panel::frame_of(area, after, panel.lines@.len() as usize)
            &&& panel.header@ == rules_header(before)
            &&& panel.footer@ == rules_footer(after)
        }
    }
}

/// The areas of the rules, of the divider below them and of the plan. A screen that is not split has
/// the sidebar alone.
pub open spec fn sidebar_areas(area: Rect, has_plan: bool, bottom_pane_height: u16) -> (
    Rect,
    Option<Rect>,
    Option<Rect>,
) {
    match layout_of(area, has_plan, bottom_pane_height) {
        Some(layout) => (layout.rules, layout.plan_divider, layout.plan),
        None => if has_plan {
            (rules_above_plan(area), Some(plan_divider_area(area)), Some(plan_area(area)))
        } else {
            (area, None, None)
        },
    }
}

fn count_completed(steps: &Vec<StepStatus>) -> (r: usize)
    ensures
        r == completed(steps@),
{
    let mut count: usize = 0;
    let mut i: usize = 0;
    while i < steps.len()
        invariant
            count <= i <= steps@.len(),
            count == completed(steps@.take(i as int)),
        decreases steps@.len() - i,
    {
        assert(steps@.take(i + 1).drop_last() =~= steps@.take(i as int));
        if steps[i] == StepStatus::Completed {
            count = count + 1;
        }
        i = i + 1;
    }
    assert(steps@.take(steps@.len() as int) =~= steps@);
    count
}

/// A text that is wrapped.
pub open spec fn wrapping(style: LineStyle, text: Seq<char>) -> RuleBlockView {
    RuleBlockView { style, text, wraps: true }
}

/// A text that is one line.
pub open spec fn single(style: LineStyle, text: Seq<char>) -> RuleBlockView {
    RuleBlockView { style, text, wraps: false }
}

/// What an error shows. The rules below it are those that were loaded last.
pub open spec fn error_blocks(error: Option<Seq<char>>, has_rules: bool) -> Seq<RuleBlockView> {
    match error {
        None => Seq::empty(),
        Some(error) => if has_rules {
            seq![
                wrapping(LineStyle::Red, error),
                single(LineStyle::Dim, "Showing last loaded rules."@),
                single(LineStyle::Plain, ""@),
            ]
        } else {
            seq![wrapping(LineStyle::Red, error)]
        },
    }
}

/// The heading of a rule: its number and its title.
pub open spec fn rule_heading(index: int, title: Seq<char>) -> Seq<char> {
    let title = text::trimmed(title);
    text::decimal((index + 1) as nat) + (if title.len() == 0 {
        ". Untitled rule"@
    } else {
        ". "@ + title
    })
}

/// A paragraph of a rule. An empty one is an empty line.
pub open spec fn paragraph_block(paragraph: Seq<char>) -> RuleBlockView {
    RuleBlockView { style: LineStyle::Plain, text: paragraph, wraps: paragraph.len() > 0 }
}

/// The paragraphs of a rule.
pub open spec fn paragraph_blocks(paragraphs: Seq<Seq<char>>) -> Seq<RuleBlockView> {
    Seq::new(paragraphs.len(), |i: int| paragraph_block(paragraphs[i]))
}

/// What stands between two rules.
pub open spec fn separator_blocks(index: int, count: nat) -> Seq<RuleBlockView> {
    if index + 1 < count {
        seq![single(LineStyle::Plain, ""@)]
    } else {
        Seq::empty()
    }
}

/// What the first `count` rules show.
pub open spec fn rules_blocks(rules: Seq<RuleItemView>, count: nat) -> Seq<RuleBlockView>
    decreases count,
{
    if count == 0 {
        Seq::empty()
    } else {
        let index = count - 1;
        rules_blocks(rules, index as nat).push(
            wrapping(LineStyle::Bold, rule_heading(index, rules[index].title)),
        ) + paragraph_blocks(text::text_lines(rules[index].content)) + separator_blocks(
            index,
            rules.len(),
        )
    }
}

/// What the sidebar shows.
pub open spec fn state_blocks(state: RulesSidebarView) -> Seq<RuleBlockView> {
    if state.rules.len() > 0 {
        error_blocks(state.error, true) + rules_blocks(state.rules, state.rules.len())
    } else if state.error is Some {
        error_blocks(state.error, false)
    } else if state.loading {
        seq![single(LineStyle::Dim, "Loading rules..."@)]
    } else {
        seq![single(LineStyle::Dim, "No rules selected for this session."@)]
    }
}

/// The lines into which a text is wrapped at some width.
pub uninterp spec fn wrapped_text(text: Seq<char>, width: nat) -> Seq<Seq<char>>;

/// `textwrap::wrap` with words that are broken where they are wider than the line. Where the lines
/// break is named and not stated further.
#[verifier::external_body]
fn wrap_text(text: &str, width: usize) -> (r: Vec<String>)
    requires
        width >= 1,
    ensures
        text::texts(r@) == wrapped_text(text@, width as nat),
{
    let options = textwrap::Options::new(width).break_words(true);
    textwrap::wrap(text, options).into_iter().map(|line| line.into_owned()).collect()
}

/// The lines of one style.
pub open spec fn styled(style: LineStyle, lines: Seq<Seq<char>>) -> Seq<RuleLineView> {
    Seq::new(lines.len(), |i: int| RuleLineView { style, text: lines[i] })
}

/// The lines of a part, where `wrapped` are the lines into which its text is wrapped.
pub open spec fn block_lines(block: RuleBlockView, wrapped: Seq<Seq<char>>) -> Seq<RuleLineView> {
    if block.wraps {
        styled(block.style, wrapped)
    } else {
        seq![RuleLineView { style: block.style, text: block.text }]
    }
}

/// The lines of some parts at a width.
pub open spec fn fitted_lines(blocks: Seq<RuleBlockView>, width: nat) -> Seq<RuleLineView>
    decreases blocks.len(),
{
    if blocks.len() == 0 {
        Seq::empty()
    } else {
        let last = blocks.last();
        fitted_lines(blocks.drop_last(), width) + block_lines(last, wrapped_text(last.text, width))
    }
}

/// Makes the lines of a part from the lines into which its text is wrapped.
pub fn lay_out_block(block: &RuleBlock, wrapped: &Vec<String>) -> (r: Vec<RuleLine>)
    ensures
        line_views(r@) == block_lines(block@, text::texts(wrapped@)),
{
    let mut out: Vec<RuleLine> = Vec::new();
    if !block.wraps {
        out.push(RuleLine { style: block.style, text: block.text.clone() });
        assert(line_views(out@) =~= block_lines(block@, text::texts(wrapped@)));
        return out;
    }
    let mut i: usize = 0;
    while i < wrapped.len()
        invariant
            i <= wrapped@.len(),
            out@.len() == i,
            forall|j: int|
                0 <= j < i ==> (#[trigger] out@[j])@ == (RuleLineView {
                    style: block.style,
                    text: wrapped@[j]@,
                }),
        decreases wrapped@.len() - i,
    {
        out.push(RuleLine { style: block.style, text: wrapped[i].clone() });
        i = i + 1;
    }
    assert(line_views(out@) =~= block_lines(block@, text::texts(wrapped@)));
    out
}

fn make_block(style: LineStyle, text: &str, wraps: bool) -> (r: RuleBlock)
    ensures
        r@ == (RuleBlockView { style, text: text@, wraps }),
{
    RuleBlock { style, text: text.to_owned(), wraps }
}

/// Writes the heading of a rule.
pub fn heading_text(index: usize, title: &str) -> (r: String)
    requires
        index < usize::MAX,
    ensures
        r@ == rule_heading(index as int, title@),
{
    let number = text::decimal_usize(index + 1);
    let trimmed = text::trim(title);
    if text::is_empty(trimmed) {
        number.concat(". Untitled rule")
    } else {
        let r = number.concat(". ").concat(trimmed);
        assert(r@ =~= rule_heading(index as int, title@));
        r
    }
}

/// Appends what a rule shows.
fn push_rule(blocks: &mut Vec<RuleBlock>, rules: &Vec<RuleItem>, index: usize)
    requires
        index < rules@.len(),
        block_views(old(blocks)@) == rules_blocks(rule_views(rules@), index as nat),
    ensures
        block_views(final(blocks)@) == rules_blocks(rule_views(rules@), (index + 1) as nat),
{
    let ghost views = rule_views(rules@);
    let ghost before = block_views(blocks@);
    let count: usize = rules.len();
    let heading = heading_text(index, rules[index].title.as_str());
    blocks.push(make_block(LineStyle::Bold, heading.as_str(), true));
    let ghost headed = before.push(
        wrapping(LineStyle::Bold, rule_heading(index as int, views[index as int].title)),
    );
    assert(block_views(blocks@) =~= headed);
    let paragraphs = text::lines(rules[index].content.as_str());
    let ghost shown = paragraph_blocks(text::texts(paragraphs@));
    let mut i: usize = 0;
    assert(headed + shown.take(0) =~= headed);
    while i < paragraphs.len()
        invariant
            i <= paragraphs@.len(),
            shown == paragraph_blocks(text::texts(paragraphs@)),
            block_views(blocks@) == headed + shown.take(i as int),
        decreases paragraphs@.len() - i,
    {
        let ghost so_far = blocks@;
        let paragraph = paragraphs[i].as_str();
        blocks.push(make_block(LineStyle::Plain, paragraph, !text::is_empty(paragraph)));
        assert(block_views(blocks@) =~= block_views(so_far).push(shown[i as int]));
        assert(shown.take(i + 1) =~= shown.take(i as int).push(shown[i as int]));
        assert(headed + shown.take(i + 1) =~= (headed + shown.take(i as int)).push(
            shown[i as int],
        ));
        i = i + 1;
    }
    assert(shown.take(shown.len() as int) =~= shown);
    let ghost so_far = blocks@;
    if index + 1 < count {
        blocks.push(make_block(LineStyle::Plain, "", false));
    }
    assert(block_views(blocks@) =~= block_views(so_far) + separator_blocks(
        index as int,
        views.len(),
    ));
}

impl RulesSidebarState {
    /// An empty sidebar for a thread and a project.
    pub fn new(thread_id: ProcessId, project_root: String) -> (r: Self)
        ensures
            r@ == (RulesSidebarView {
                thread_id,
                project_root: project_root@,
                rules: Seq::empty(),
                error: None,
                loading: false,
                scroll: PanelScroll { scroll_offset: 0, max_scroll: 0, page_height: 1 },
                plan: PanelScroll { scroll_offset: 0, max_scroll: 0, page_height: 0 },
            }),
    {
        let r = RulesSidebarState {
            thread_id,
            project_root,
            rules: Vec::new(),
            error: None,
            loading: false,
            scroll: PanelScroll::new(1),
            plan: PanelScroll::new(0),
        };
        assert(r@.rules =~= Seq::empty());
        r
    }

    /// Whether the sidebar belongs to a thread and a project.
    pub fn context_matches(&self, thread_id: ProcessId, project_root: &str) -> (r: bool)
        ensures
            r == (self@.thread_id == thread_id && self@.project_root == project_root@),
    {
        self.thread_id == thread_id && text::text_eq(self.project_root.as_str(), project_root)
    }

    /// Notes that a load has started. What was loaded stays.
    pub fn begin_load(&mut self)
        ensures
            final(self)@ == (RulesSidebarView { loading: true, ..old(self)@ }),
    {
        self.loading = true;
    }

    /// Takes the result of a load. A failed one keeps the rules of the last that succeeded.
    pub fn finish_load(&mut self, result: Result<RulesSidebarLoad, String>)
        ensures
            final(self)@ == loaded(
                old(self)@,
                match result {
                    Ok(load) => Ok(rule_views(load.rules@)),
                    Err(error) => Err(error@),
                },
            ),
    {
        self.loading = false;
        match result {
            Ok(load) => {
                self.rules = load.rules;
                self.error = None;
            },
            Err(error) => {
                self.error = Some(error);
            },
        }
    }

    /// One line up.
    pub fn scroll_up(&mut self)
        ensures
            final(self)@ == (RulesSidebarView { scroll: final(self).scroll, ..old(self)@ }),
            final(self).scroll.scroll_offset == geometry::minus(
                old(self).scroll.scroll_offset as int,
                1,
            ),
            final(self).scroll.max_scroll == old(self).scroll.max_scroll,
            final(self).scroll.page_height == old(self).scroll.page_height,
    {
        self.scroll.scroll_up();
    }

    /// One line down, up to the largest offset.
    pub fn scroll_down(&mut self)
        ensures
            final(self)@ == (RulesSidebarView { scroll: final(self).scroll, ..old(self)@ }),
            final(self).scroll.scroll_offset == geometry::smaller(
                old(self).scroll.scroll_offset + 1,
                old(self).scroll.max_scroll as int,
            ),
            final(self).scroll.max_scroll == old(self).scroll.max_scroll,
            final(self).scroll.page_height == old(self).scroll.page_height,
    {
        self.scroll.scroll_down();
    }

    /// One page up.
    pub fn page_up(&mut self)
        ensures
            final(self)@ == (RulesSidebarView { scroll: final(self).scroll, ..old(self)@ }),
            final(self).scroll.scroll_offset == geometry::minus(
                old(self).scroll.scroll_offset as int,
                panel::page_step(old(self).scroll),
            ),
            final(self).scroll.max_scroll == old(self).scroll.max_scroll,
            final(self).scroll.page_height == old(self).scroll.page_height,
    {
        self.scroll.page_up();
    }

    /// One page down, up to the largest offset.
    pub fn page_down(&mut self)
        ensures
            final(self)@ == (RulesSidebarView { scroll: final(self).scroll, ..old(self)@ }),
            final(self).scroll.scroll_offset == geometry::smaller(
                old(self).scroll.scroll_offset + panel::page_step(old(self).scroll),
                old(self).scroll.max_scroll as int,
            ),
            final(self).scroll.max_scroll == old(self).scroll.max_scroll,
            final(self).scroll.page_height == old(self).scroll.page_height,
    {
        self.scroll.page_down();
    }

    /// Scrolls the plan by one line.
    pub fn scroll_plan(&mut self, direction: ScrollDirection)
        ensures
            final(self)@ == (RulesSidebarView {
                plan: scrolled(old(self).plan, direction),
                ..old(self)@
            }),
    {
        match direction {
            ScrollDirection::Up => self.plan.scroll_up(),
            ScrollDirection::Down => self.plan.scroll_down(),
        }
    }

    /// Handles the wheel. It scrolls the transcript and the plan, each under the pointer; over the
    /// rules and the bottom pane it does nothing. A screen that is not split has no transcript.
    pub fn handle_mouse_scroll(
        &mut self,
        area: Rect,
        has_plan: bool,
        bottom_pane_height: u16,
        wheel: Option<ScrollDirection>,
        position: Position,
    ) -> (r: MouseScroll)
        ensures
            r == wheel_target(area, has_plan, bottom_pane_height, wheel, position),
            r is Plan ==> final(self)@ == (RulesSidebarView {
                plan: scrolled(old(self).plan, wheel.unwrap()),
                ..old(self)@
            }),
            !(r is Plan) ==> final(self)@ == old(self)@,
    {
        let direction = match wheel {
            Some(direction) => direction,
            None => {
                return MouseScroll::Ignored;
            },
        };
        if let Some(layout) = rules_sidebar_layout(area, has_plan, bottom_pane_height) {
            if layout.timeline.contains(position) {
                return MouseScroll::Transcript(direction);
            }
            if let Some(plan) = layout.plan {
                if plan.contains(position) {
                    self.scroll_plan(direction);
                    return MouseScroll::Plan;
                }
            }
            return MouseScroll::Ignored;
        }
        if has_plan && split_sidebar_area(area).2.contains(position) {
            self.scroll_plan(direction);
            return MouseScroll::Plan;
        }
        MouseScroll::Ignored
    }

    /// The parts of what the sidebar shows, before they are fitted to a width.
    pub fn rule_blocks(&self) -> (r: Vec<RuleBlock>)
        ensures
            block_views(r@) == state_blocks(self@),
    {
        if self.rules.len() == 0 {
            let block = match &self.error {
                Some(error) => make_block(LineStyle::Red, error.as_str(), true),
                None => if self.loading {
                    make_block(LineStyle::Dim, "Loading rules...", false)
                } else {
                    make_block(LineStyle::Dim, "No rules selected for this session.", false)
                },
            };
            let mut out: Vec<RuleBlock> = Vec::new();
            out.push(block);
            assert(block_views(out@) =~= state_blocks(self@));
            return out;
        }
        let mut out: Vec<RuleBlock> = Vec::new();
        if let Some(error) = &self.error {
            out.push(make_block(LineStyle::Red, error.as_str(), true));
            out.push(make_block(LineStyle::Dim, "Showing last loaded rules.", false));
            out.push(make_block(LineStyle::Plain, "", false));
        }
        let ghost head = block_views(out@);
        assert(head =~= error_blocks(self@.error, true));
        let mut body: Vec<RuleBlock> = Vec::new();
        let mut index: usize = 0;
        assert(block_views(body@) =~= rules_blocks(self@.rules, 0));
        while index < self.rules.len()
            invariant
                index <= self.rules@.len(),
                block_views(body@) == rules_blocks(rule_views(self.rules@), index as nat),
            decreases self.rules@.len() - index,
        {
            push_rule(&mut body, &self.rules, index);
            index = index + 1;
        }
        let ghost shown = body@;
        let ghost start = out@;
        out.append(&mut body);
        assert(block_views(out@) =~= head + block_views(shown)) by {
            assert(out@ == start + shown);
        }
        out
    }

    /// The lines of the rules at a width.
    pub fn rule_lines(&self, width: u16) -> (r: Vec<RuleLine>)
        ensures
            line_views(r@) == fitted_lines(state_blocks(self@), line_width(width)),
    {
        let width: usize = if width < 1 {
            1
        } else {
            width as usize
        };
        let blocks = self.rule_blocks();
        let ghost views = block_views(blocks@);
        let mut out: Vec<RuleLine> = Vec::new();
        let mut i: usize = 0;
        assert(line_views(out@) =~= fitted_lines(views.take(0), width as nat));
        while i < blocks.len()
            invariant
                i <= blocks@.len(),
                width >= 1,
                views == block_views(blocks@),
                line_views(out@) == fitted_lines(views.take(i as int), width as nat),
            decreases blocks@.len() - i,
        {
            let ghost before = out@;
            let wrapped = wrap_text(blocks[i].text.as_str(), width);
            let mut lines = lay_out_block(&blocks[i], &wrapped);
            let ghost added = lines@;
            out.append(&mut lines);
            proof {
                assert(out@ == before + added);
                assert(line_views(out@) =~= line_views(before) + line_views(added));
                assert(views.take(i + 1).drop_last() =~= views.take(i as int));
                assert(views.take(i + 1).last() == views[i as int]);
            }
            i = i + 1;
        }
        assert(views.take(views.len() as int) =~= views);
        out
    }

    /// Draws the plan into an area. `line_count` is the number of lines that the checklist takes in
    /// the content area. Nothing is drawn into an empty area.
    pub fn render_plan(&mut self, area: Rect, steps: &Vec<StepStatus>, line_count: usize) -> (r:
        Option<PlanPanel>)
        ensures
            plan_drawn(old(self).plan, area, steps@, line_count, r, final(self).plan),
            final(self)@ == (RulesSidebarView { plan: final(self).plan, ..old(self)@ }),
    {
        match self.plan.draw(area, line_count) {
            None => None,
            Some(frame) => {
                let header = "Plan  ".to_owned().concat(
                    text::decimal_usize(count_completed(steps)).as_str(),
                ).concat("/").concat(text::decimal_usize(steps.len()).as_str());
                let footer = if self.plan.max_scroll == 0 {
                    "".to_owned()
                } else {
                    "Mouse wheel scroll".to_owned()
                };
                Some(PlanPanel { frame, header, footer })
            },
        }
    }

    /// Forgets how far the plan was scrolled: there is none.
    pub fn reset_plan(&mut self)
        ensures
            final(self)@ == (RulesSidebarView {
                plan: PanelScroll { scroll_offset: 0, max_scroll: 0, page_height: 1 },
                ..old(self)@
            }),
    {
        self.plan.reset();
    }

    /// Draws the rules into an area. Nothing is drawn into an empty one.
    pub fn render_rules(&mut self, area: Rect) -> (r: Option<RulesPanel>)
        ensures
            rules_drawn(old(self)@, area, r, final(self).scroll),
            final(self)@ == (RulesSidebarView { scroll: final(self).scroll, ..old(self)@ }),
    {
        if area.is_empty() {
            return None;
        }
        let content = panel::content_area(area);
        let lines = self.rule_lines(content.width);
        match self.scroll.draw(area, lines.len()) {
            None => None,
            Some(frame) => {
                let status = if self.loading {
                    "  refreshing"
                } else if self.error.is_some() {
                    "  stale"
                } else {
                    ""
                };
                let header = "Rules  ".to_owned().concat(
                    text::decimal_usize(self.rules.len()).as_str(),
                ).concat(status);
                let footer = if self.scroll.max_scroll == 0 {
                    "Ctrl+T close".to_owned()
                } else {
                    "Ctrl+Alt+Up/Down scroll  Ctrl+T close".to_owned()
                };
                Some(RulesPanel { frame, header, lines, footer })
            },
        }
    }

    /// Draws the sidebar, and says where the parts of the screen stand. Without a plan, what is known
    /// of its panel is forgotten.
    pub fn render(&mut self, area: Rect, bottom_pane_height: u16, plan: Option<&PlanContent>) -> (r:
        SidebarFrame)
        ensures
            r.layout == layout_of(area, plan is Some, bottom_pane_height),
            ({
                let (rules_area, divider, plan_area) = sidebar_areas(
                    area,
                    plan is Some,
                    bottom_pane_height,
                );
                &&& r.plan_divider == divider
                &&& rules_drawn(old(self)@, rules_area, r.rules, final(self).scroll)
                &&& match plan {
                    Some(content) => plan_drawn(
                        old(self).plan,
                        plan_area.unwrap(),
                        content.steps@,
                        content.line_count,
                        r.plan,
                        final(self).plan,
                    ),
                    None => r.plan is None && final(self).plan == (PanelScroll {
                        scroll_offset: 0,
                        max_scroll: 0,
                        page_height: 1,
                    }),
                }
            }),
            final(self)@ == (RulesSidebarView {
                scroll: final(self).scroll,
                plan: final(self).plan,
                ..old(self)@
            }),
    {
        let layout = rules_sidebar_layout(area, plan.is_some(), bottom_pane_height);
        let (rules_area, plan_divider, plan_area) = match layout {
            Some(layout) => (layout.rules, layout.plan_divider, layout.plan),
            None => if plan.is_some() {
                let (rules_area, divider, plan_area) = split_sidebar_area(area);
                (rules_area, Some(divider), Some(plan_area))
            } else {
                (area, None, None)
            },
        };
        let rules = self.render_rules(rules_area);
        let drawn = match (plan, plan_area) {
            (Some(content), Some(plan_area)) => self.render_plan(
                plan_area,
                &content.steps,
                content.line_count,
            ),
            _ => {
                self.reset_plan();
                None
            },
        };
        SidebarFrame { layout, plan_divider, rules, plan: drawn }
    }
}

/// The sidebar after a load.
pub open spec fn loaded(
    state: RulesSidebarView,
    result: Result<Seq<RuleItemView>, Seq<char>>,
) -> RulesSidebarView {
    match result {
        Ok(rules) => RulesSidebarView { rules, error: None, loading: false, ..state },
        Err(error) => RulesSidebarView { error: Some(error), loading: false, ..state },
    }
}

/// A panel that is scrolled by one line.
pub open spec fn scrolled(scroll: PanelScroll, direction: ScrollDirection) -> PanelScroll {
    PanelScroll {
        scroll_offset: match direction {
            ScrollDirection::Up => geometry::minus(scroll.scroll_offset as int, 1),
            ScrollDirection::Down => geometry::smaller(
                scroll.scroll_offset + 1,
                scroll.max_scroll as int,
            ),
        } as usize,
        ..scroll
    }
}

/// What the wheel moves at a position.
pub open spec fn wheel_target(
    area: Rect,
    has_plan: bool,
    bottom_pane_height: u16,
    wheel: Option<ScrollDirection>,
    position: Position,
) -> MouseScroll {
    match wheel {
        None => MouseScroll::Ignored,
        Some(direction) => match layout_of(area, has_plan, bottom_pane_height) {
            Some(layout) => if layout.timeline.covers(position) {
                MouseScroll::Transcript(direction)
            } else if layout.plan is Some && layout.plan.unwrap().covers(position) {
                MouseScroll::Plan
            } else {
                MouseScroll::Ignored
            },
            None => if has_plan && plan_area(area).covers(position) {
                MouseScroll::Plan
            } else {
                MouseScroll::Ignored
            },
        },
    }
}

/// The width at which lines are wrapped: one column at least.
pub open spec fn line_width(width: u16) -> nat {
    if width < 1 {
        1
    } else {
        width as nat
    }
}

/// The header of the rules: their number, and whether they are being refreshed or out of date.
pub open spec fn rules_header(state: RulesSidebarView) -> Seq<char> {
    "Rules  "@ + text::decimal(state.rules.len()) + (if state.loading {
        "  refreshing"@
    } else if state.error is Some {
        "  stale"@
    } else {
        ""@
    })
}

/// The footer of the rules.
pub open spec fn rules_footer(scroll: PanelScroll) -> Seq<char> {
    if scroll.max_scroll == 0 {
        "Ctrl+T close"@
    } else {
        "Ctrl+Alt+Up/Down scroll  Ctrl+T close"@
    }
}

/// A load that fails leaves the rules as they were, and says so: the header marks them as out of
/// date until a load succeeds.
pub proof fn law_failed_load_keeps_the_rules(state: RulesSidebarView, error: Seq<char>)
    ensures
        loaded(state, Err(error)).rules == state.rules,
        loaded(state, Err(error)).error == Some(error),
        rules_header(loaded(state, Err(error))) == "Rules  "@ + text::decimal(state.rules.len())
            + "  stale"@,
        state.rules.len() > 0 ==> state_blocks(loaded(state, Err(error))) == error_blocks(
            Some(error),
            true,
        ) + rules_blocks(state.rules, state.rules.len()),
{
}

/// The sidebar is a third of the screen wide, but never under 40 columns and never over 64.
pub proof fn law_sidebar_is_a_third_within_bounds(total: u16)
    ensures
        40 <= sidebar_width(total as int) <= 64,
        120 <= total <= 194 ==> sidebar_width(total as int) == total / 3,
        total < 120 ==> sidebar_width(total as int) == 40,
        total > 194 ==> sidebar_width(total as int) == 64,
{
}

/// A screen is split exactly from 112 columns on. The sidebar has the last columns, a divider stands left of
/// it, and the rest is shared by the timeline and, below it, the bottom pane with the height it asks for.
pub proof fn law_wide_screen_is_split(area: Rect, has_plan: bool, bottom_pane_height: u16)
    requires
        area.on_screen(),
    ensures
        layout_of(area, has_plan, bottom_pane_height) is Some <==> area.width >= 112,
        layout_of(area, has_plan, bottom_pane_height) matches Some(layout) ==> {
            let width = sidebar_width(area.width as int);
            &&& layout.timeline.x == area.x && layout.bottom.x == area.x
            &&& layout.timeline.width == area.width - width - 1
            &&& layout.bottom.width == area.width - width - 1
            &&& layout.divider.x == area.x + area.width - width - 1 && layout.divider.width == 1
            &&& layout.divider.y == area.y && layout.divider.height == area.height
            &&& layout.rules.x == area.x + area.width - width && layout.rules.width == width
            &&& layout.rules.y == area.y
            &&& layout.timeline.y == area.y
            &&& layout.bottom.y == area.y + layout.timeline.height
            &&& layout.timeline.height + layout.bottom.height == area.height
            &&& layout.bottom.height == (if bottom_pane_height < area.height {
                bottom_pane_height
            } else {
                area.height
            })
            &&& layout.plan is Some <==> has_plan
            &&& layout.plan_divider is Some <==> has_plan
            &&& !has_plan ==> layout.rules.height == area.height
            &&& layout.plan matches Some(plan) ==> plan.x == area.x + area.width - width
                && plan.width == width && (area.height >= 2 ==> plan.y + plan.height == area.y
                + area.height)
        },
{
}

proof fn lemma_completed_push(steps: Seq<StepStatus>, step: StepStatus)
    ensures
        completed(steps.push(step)) == completed(steps) + (if step == StepStatus::Completed {
            1nat
        } else {
            0nat
        }),
{
    assert(steps.push(step).drop_last() =~= steps);
}

/// A step counts exactly if it is completed: one more completed step is one more, and another one is none.
pub proof fn law_completed_steps_are_counted(steps: Seq<StepStatus>, step: StepStatus)
    ensures
        completed(Seq::empty()) == 0,
        step == StepStatus::Completed ==> completed(steps.push(step)) == completed(steps) + 1,
        step != StepStatus::Completed ==> completed(steps.push(step)) == completed(steps),
        plan_header(steps) == "Plan  "@ + text::decimal(completed(steps)) + "/"@ + text::decimal(
            steps.len(),
        ),
{
    lemma_completed_push(steps, step);
}

/// A footer names the keys that scroll exactly if there is something to scroll.
pub proof fn law_footer_names_the_keys_that_work(scroll: PanelScroll)
    ensures
        scroll.max_scroll > 0 ==> plan_footer(scroll) == "Mouse wheel scroll"@,
        scroll.max_scroll == 0 ==> plan_footer(scroll) == ""@,
        scroll.max_scroll > 0 ==> rules_footer(scroll)
            == "Ctrl+Alt+Up/Down scroll  Ctrl+T close"@,
        scroll.max_scroll == 0 ==> rules_footer(scroll) == "Ctrl+T close"@,
{
}

/// The header of the rules says how many there are, and whether they are refreshed or out of date: while
/// they are refreshed it says that alone.
pub proof fn law_header_says_how_fresh_the_rules_are(state: RulesSidebarView)
    ensures
        state.loading ==> rules_header(state) == "Rules  "@ + text::decimal(state.rules.len())
            + "  refreshing"@,
        !state.loading && state.error is Some ==> rules_header(state) == "Rules  "@
            + text::decimal(state.rules.len()) + "  stale"@,
        !state.loading && state.error is None ==> rules_header(state) == "Rules  "@
            + text::decimal(state.rules.len()) + ""@,
{
}

/// A rule is headed by its number, counted from one, and its title without the white space around it, or by
/// a name in place of a blank one.
pub proof fn law_rule_is_headed_by_its_number(index: int, title: Seq<char>)
    requires
        index >= 0,
    ensures
        text::trimmed(title).len() > 0 ==> rule_heading(index, title) == text::decimal(
            (index + 1) as nat,
        ) + (". "@ + text::trimmed(title)),
        text::trimmed(title).len() == 0 ==> rule_heading(index, title) == text::decimal(
            (index + 1) as nat,
        ) + ". Untitled rule"@,
{
}

proof fn lemma_rules_blocks_of_a_longer_list(
    rules: Seq<RuleItemView>,
    rule: RuleItemView,
    count: nat,
)
    requires
        count < rules.len(),
    ensures
        rules_blocks(rules.push(rule), count) == rules_blocks(rules, count),
    decreases count,
{
    if count > 0 {
        lemma_rules_blocks_of_a_longer_list(rules, rule, (count - 1) as nat);
        assert(rules.push(rule)[count - 1] == rules[count - 1]);
    }
}

/// What a rule shows: its heading, which is wrapped and bold, and then each line of its content, an empty
/// one as an empty line and any other wrapped.
pub open spec fn rule_blocks(index: int, rule: RuleItemView) -> Seq<RuleBlockView> {
    seq![wrapping(LineStyle::Bold, rule_heading(index, rule.title))] + paragraph_blocks(
        text::text_lines(rule.content),
    )
}

/// The rules are shown one after the other with an empty line between two of them and none at the end.
pub proof fn law_rules_are_shown_in_order(rules: Seq<RuleItemView>, rule: RuleItemView)
    ensures
        rules_blocks(Seq::empty(), 0).len() == 0,
        ({
            let more = rules.push(rule);
            let shown = rules_blocks(more, more.len());
            &&& rules.len() == 0 ==> shown == rule_blocks(0, rule)
            &&& rules.len() > 0 ==> shown == rules_blocks(rules, rules.len()) + seq![
                single(LineStyle::Plain, ""@),
            ] + rule_blocks(rules.len() as int, rule)
        }),
{
    let more = rules.push(rule);
    let n = rules.len();
    assert(more[n as int] == rule);
    assert(separator_blocks(n as int, more.len()) =~= Seq::empty());
    let own = rule_blocks(n as int, rule);
    assert(rules_blocks(more, more.len()) =~= rules_blocks(more, n) + own);
    if n > 0 {
        let last = (n - 1) as nat;
        lemma_rules_blocks_of_a_longer_list(rules, rule, last);
        assert(more[last as int] == rules[last as int]);
        assert(rules_blocks(more, n) =~= rules_blocks(rules, n) + seq![
            single(LineStyle::Plain, ""@),
        ]);
    } else {
        assert(rules_blocks(more, n) =~= Seq::empty());
    }
}

/// A rule shows its heading and then its content line by line, where only an empty line is not wrapped.
pub proof fn law_rule_shows_its_content(index: int, rule: RuleItemView)
    ensures
        ({
            let blocks = rule_blocks(index, rule);
            let lines = text::text_lines(rule.content);
            &&& blocks.len() == lines.len() + 1
            &&& blocks[0].text == rule_heading(index, rule.title)
            &&& blocks[0].style == LineStyle::Bold && blocks[0].wraps
            &&& forall|i: int|
                0 <= i < lines.len() ==> {
                    &&& (#[trigger] blocks[i + 1]).text == lines[i]
                    &&& blocks[i + 1].style == LineStyle::Plain
                    &&& blocks[i + 1].wraps == (lines[i].len() > 0)
                }
        }),
{
}

/// The sidebar shows its rules, under an error in red if the last load failed. Without rules it shows the
/// error alone, or that the rules are loaded, or that there are none.
pub proof fn law_sidebar_shows_its_state(state: RulesSidebarView)
    ensures
        ({
            let blocks = state_blocks(state);
            let rules = rules_blocks(state.rules, state.rules.len());
            &&& state.rules.len() > 0 && state.error is None ==> blocks == rules
            &&& state.rules.len() > 0 && state.error is Some ==> {
                &&& blocks.len() == 3 + rules.len()
                &&& blocks[0] == (RuleBlockView {
                    style: LineStyle::Red,
                    text: state.error.unwrap(),
                    wraps: true,
                })
                &&& blocks[1].text == "Showing last loaded rules."@ && blocks[1].style
                    == LineStyle::Dim && !blocks[1].wraps
                &&& blocks[2].text == ""@ && blocks[2].style == LineStyle::Plain
                    && !blocks[2].wraps
                &&& forall|i: int|
                    0 <= i < rules.len() ==> #[trigger] blocks[i + 3] == rules[i]
            }
            &&& state.rules.len() == 0 ==> blocks.len() == 1
            &&& state.rules.len() == 0 && state.error is Some ==> blocks[0] == (RuleBlockView {
                style: LineStyle::Red,
                text: state.error.unwrap(),
                wraps: true,
            })
            &&& state.rules.len() == 0 && state.error is None && state.loading ==> blocks[0] == (
            RuleBlockView { style: LineStyle::Dim, text: "Loading rules..."@, wraps: false })
            &&& state.rules.len() == 0 && state.error is None && !state.loading ==> blocks[0] == (
            RuleBlockView {
                style: LineStyle::Dim,
                text: "No rules selected for this session."@,
                wraps: false,
            })
        }),
{
    assert(error_blocks(None, true) + rules_blocks(state.rules, state.rules.len())
        =~= rules_blocks(state.rules, state.rules.len()));
}

/// The lines of the parts follow each other in order. A part that is not wrapped is one line with its text,
/// and one that is wrapped is the lines of its wrapped text, in the style of the part.
pub proof fn law_parts_are_laid_out_in_order(
    blocks: Seq<RuleBlockView>,
    block: RuleBlockView,
    width: nat,
)
    ensures
        fitted_lines(Seq::empty(), width).len() == 0,
        ({
            let before = fitted_lines(blocks, width);
            let lines = fitted_lines(blocks.push(block), width);
            let wrapped = wrapped_text(block.text, width);
            &&& forall|i: int| 0 <= i < before.len() ==> #[trigger] lines[i] == before[i]
            &&& !block.wraps ==> lines.len() == before.len() + 1 && lines.last() == (RuleLineView {
                style: block.style,
                text: block.text,
            })
            &&& block.wraps ==> lines.len() == before.len() + wrapped.len() && forall|i: int|
                0 <= i < wrapped.len() ==> #[trigger] lines[before.len() + i] == (RuleLineView {
                    style: block.style,
                    text: wrapped[i],
                })
        }),
{
    assert(blocks.push(block).drop_last() =~= blocks);
}

/// A load that succeeds shows its rules and no error, and keeps where the sidebar is scrolled to.
pub proof fn law_load_replaces_the_rules(state: RulesSidebarView, rules: Seq<RuleItemView>)
    ensures
        ({
            let after = loaded(state, Ok(rules));
            &&& after.rules == rules
            &&& after.error is None
            &&& !after.loading
            &&& after.thread_id == state.thread_id && after.project_root == state.project_root
            &&& after.scroll == state.scroll && after.plan == state.plan
        }),
{
}

/// A failed load keeps everything but that it is over and why it failed.
pub proof fn law_failed_load_is_over(state: RulesSidebarView, error: Seq<char>)
    ensures
        ({
            let after = loaded(state, Err(error));
            &&& !after.loading
            &&& after.thread_id == state.thread_id && after.project_root == state.project_root
            &&& after.scroll == state.scroll && after.plan == state.plan
        }),
{
}

/// The wheel scrolls by one line, up to the start and down to the largest offset.
pub proof fn law_wheel_scrolls_by_a_line(scroll: PanelScroll, direction: ScrollDirection)
    requires
        scroll.scroll_offset <= scroll.max_scroll,
    ensures
        ({
            let after = scrolled(scroll, direction);
            &&& after.max_scroll == scroll.max_scroll && after.page_height == scroll.page_height
            &&& direction == ScrollDirection::Up && scroll.scroll_offset > 0
                ==> after.scroll_offset == scroll.scroll_offset - 1
            &&& direction == ScrollDirection::Up && scroll.scroll_offset == 0
                ==> after.scroll_offset == 0
            &&& direction == ScrollDirection::Down && scroll.scroll_offset < scroll.max_scroll
                ==> after.scroll_offset == scroll.scroll_offset + 1
            &&& direction == ScrollDirection::Down && scroll.scroll_offset == scroll.max_scroll
                ==> after.scroll_offset == scroll.max_scroll
        }),
{
}

/// The wheel scrolls what is below the mouse: the transcript over the timeline of a split screen, and the
/// plan over the plan. Anywhere else, and without a wheel, nothing is scrolled.
pub proof fn law_wheel_scrolls_what_is_below_the_mouse(
    area: Rect,
    has_plan: bool,
    bottom_pane_height: u16,
    direction: ScrollDirection,
    position: Position,
)
    ensures
        wheel_target(area, has_plan, bottom_pane_height, None, position) == MouseScroll::Ignored,
        ({
            let target = wheel_target(
                area,
                has_plan,
                bottom_pane_height,
                Some(direction),
                position,
            );
            let layout = layout_of(area, has_plan, bottom_pane_height);
            &&& target is Transcript <==> (layout is Some && layout.unwrap().timeline.covers(
                position,
            ))
            &&& target is Transcript ==> target == MouseScroll::Transcript(direction)
            &&& target is Plan ==> has_plan
            &&& layout is None ==> (target is Plan <==> has_plan && plan_area(area).covers(
                position,
            ))
            &&& layout is Some && has_plan && !layout.unwrap().timeline.covers(position) ==> (target
                is Plan <==> plan_area(right_area(area)).covers(position))
        }),
{
}

/// Lines are wrapped at the width of the content, and at one column where it has none.
pub proof fn law_lines_have_a_column_at_least(width: u16)
    ensures
        width >= 1 ==> line_width(width) == width,
        width == 0 ==> line_width(width) == 1,
{
}

/// Where the screen is not split, the sidebar has all of it. The plan is shown exactly if there is one, and
/// then below the rules.
pub proof fn law_narrow_screen_is_the_sidebar(
    area: Rect,
    has_plan: bool,
    bottom_pane_height: u16,
)
    ensures
        ({
            let (rules, divider, plan) = sidebar_areas(area, has_plan, bottom_pane_height);
            let whole = if area.width >= 112 {
                right_area(area)
            } else {
                area
            };
            &&& plan is Some <==> has_plan
            &&& divider is Some <==> has_plan
            &&& !has_plan ==> rules == whole
            &&& has_plan ==> rules == rules_above_plan(whole) && divider == Some(
                plan_divider_area(whole),
            ) && plan == Some(plan_area(whole))
        }),
{
}

/// Into an area with cells the rules are drawn as lines of the content's width, with their own header, and
/// scrolled so far only as there are lines. Into an empty area nothing is drawn, and nothing is scrolled.
pub proof fn law_rules_fill_their_area(
    before: RulesSidebarView,
    area: Rect,
    drawn: Option<RulesPanel>,
    after: PanelScroll,
)
    requires
        rules_drawn(before, area, drawn, after),
    ensures
        drawn is Some <==> area.width > 0 && area.height > 0,
        drawn is None ==> after == before.scroll,
        drawn matches Some(panel) ==> {
            let content = panel::content_area_of(area);
            &&& line_views(panel.lines@) == fitted_lines(
                state_blocks(before),
                line_width(content.width),
            )
            &&& panel.header@ == rules_header(before)
            &&& panel.footer@ == rules_footer(after)
            &&& panel.frame.content == content
            &&& after.page_height == content.height
            &&& after.scroll_offset <= after.max_scroll
            &&& panel.lines@.len() > content.height ==> after.max_scroll == panel.lines@.len()
                - content.height
            &&& panel.lines@.len() <= content.height ==> after.max_scroll == 0
            &&& before.scroll.scroll_offset <= after.max_scroll ==> after.scroll_offset
                == before.scroll.scroll_offset
        },
{
    if let Some(panel) = drawn {
        assert(panel.lines@.len() == panel.lines.len());
    }
}

/// Into an area with cells the plan is drawn with its own header, and scrolled so far only as it has lines.
/// Into an empty area nothing is drawn, and nothing is scrolled.
pub proof fn law_plan_fills_its_area(
    before: PanelScroll,
    area: Rect,
    steps: Seq<StepStatus>,
    line_count: usize,
    drawn: Option<PlanPanel>,
    after: PanelScroll,
)
    requires
        plan_drawn(before, area, steps, line_count, drawn, after),
    ensures
        drawn is Some <==> area.width > 0 && area.height > 0,
        drawn is None ==> after == before,
        drawn matches Some(panel) ==> {
            let content = panel::content_area_of(area);
            &&& panel.header@ == plan_header(steps)
            &&& panel.footer@ == plan_footer(after)
            &&& panel.frame.content == content
            &&& after.page_height == content.height
            &&& line_count > content.height ==> after.max_scroll == line_count - content.height
            &&& line_count <= content.height ==> after.max_scroll == 0
            &&& after.scroll_offset == (if before.scroll_offset < after.max_scroll {
                before.scroll_offset
            } else {
                after.max_scroll
            })
        },
{
}

} // verus!
