//! The transcript viewport: the transcript above the composer while Shift is held.
use crate::geometry;
use crate::geometry::{Position, Rect};
use crate::sidebar::ScrollDirection;
use vstd::prelude::*;

verus! {

/// The lines that one step of the wheel scrolls.
pub const LINES_PER_MOUSE_SCROLL: usize = 3;

/// Where transcript and composer stand.
#[derive(Debug, Clone, Copy, PartialEq, Eq, Structural)]
pub struct MainTranscriptLayout {
    pub timeline: Rect,
    pub composer: Rect,
}

/// The height of the composer, as far as it fits.
pub open spec fn composer_height(area: Rect, wanted: u16) -> int {
    geometry::smaller(wanted as int, area.height as int)
}

/// The empty row between transcript and composer, where both are visible.
pub open spec fn separator_height(area: Rect, wanted: u16) -> int {
    if 0 < composer_height(area, wanted) < area.height {
        1
    } else {
        0
    }
}

/// The first row that the transcript does not have.
pub open spec fn composer_top(area: Rect, wanted: u16) -> int {
    geometry::minus(
        geometry::smaller(area.y + area.height, 65535),
        composer_height(area, wanted) + separator_height(area, wanted),
    )
}

/// The layout for a composer that wants some height.
pub open spec fn layout_of(area: Rect, wanted: u16) -> MainTranscriptLayout {
    let top = composer_top(area, wanted);
    let start = geometry::smaller(top + separator_height(area, wanted), 65535);
    MainTranscriptLayout {
        timeline: geometry::placed(
            area.x as int,
            area.y as int,
            area.width as int,
            geometry::minus(top, area.y as int),
        ),
        composer: geometry::placed(
            area.x as int,
            start,
            area.width as int,
            geometry::minus(geometry::smaller(area.y + area.height, 65535), start),
        ),
    }
}

/// Lays the viewport out. The composer is never hidden by the transcript.
pub fn layout(area: Rect, wanted_composer_height: u16) -> (r: MainTranscriptLayout)
    ensures
        r == layout_of(area, wanted_composer_height),
{
    let composer_height: u16 = if wanted_composer_height < area.height {
        wanted_composer_height
    } else {
        area.height
    };
    let separator_height: u16 = if composer_height > 0 && composer_height < area.height {
        1
    } else {
        0
    };
    let occupied_height: u16 = composer_height + separator_height;
    let composer_top: u16 = area.bottom().saturating_sub(occupied_height);
    let timeline = Rect::new(
        area.x,
        area.y,
        area.width,
        composer_top.saturating_sub(area.y),
    );
    let start: u16 = composer_top.saturating_add(separator_height);
    let composer = Rect::new(area.x, start, area.width, area.bottom().saturating_sub(start));
    MainTranscriptLayout { timeline, composer }
}

/// The width of the transcript's lines: a column is left for the scroll bar, and one for the text
/// at least.
pub fn transcript_width(timeline: Rect) -> (r: u16)
    ensures
        r == (if timeline.width < 2 {
            1
        } else {
            (timeline.width - 1) as u16
        }),
{
    let width: u16 = timeline.width.saturating_sub(1);
    if width < 1 {
        1
    } else {
        width
    }
}

/// Transcript and composer stand apart and inside the viewport, and the composer gets the height
/// that it wants as far as there is room.
pub proof fn law_composer_stays_visible(area: Rect, wanted: u16, position: Position)
    requires
        area.on_screen(),
    ensures
        ({
            let layout = layout_of(area, wanted);
            &&& layout.composer.height == composer_height(area, wanted)
            &&& layout.timeline.height + separator_height(area, wanted) + layout.composer.height
                == area.height
            &&& !(layout.timeline.covers(position) && layout.composer.covers(position))
            &&& layout.timeline.covers(position) || layout.composer.covers(position)
                ==> area.covers(position)
        }),
{
}

/// The direction in which the wheel scrolls the transcript: none unless Shift is held.
pub fn shift_scroll(
    wheel: Option<ScrollDirection>,
    event_has_shift: bool,
    shift_is_held: bool,
) -> (r: Option<ScrollDirection>)
    ensures
        r == (if event_has_shift || shift_is_held {
            wheel
        } else {
            None
        }),
{
    if event_has_shift || shift_is_held {
        wheel
    } else {
        None
    }
}

/// Whether older history is to be requested: the wheel went up, the start of what is loaded is
/// reached and there is more.
pub fn wants_older_history(direction: ScrollDirection, at_top: bool, has_older: bool) -> (r: bool)
    ensures
        r == (direction == ScrollDirection::Up && at_top && has_older),
{
    direction == ScrollDirection::Up && at_top && has_older
}

/// The composer ends with the viewport and has the height that it wants, or the whole viewport. The
/// transcript starts with the viewport and has the rest but for an empty row, which is there exactly if
/// both are visible.
pub proof fn law_composer_is_below_the_transcript(area: Rect, wanted: u16)
    requires
        area.on_screen(),
    ensures
        ({
            let layout = layout_of(area, wanted);
            &&& layout.composer.height == (if wanted < area.height {
                wanted
            } else {
                area.height
            })
            &&& layout.composer.y + layout.composer.height == area.y + area.height
            &&& layout.composer.x == area.x && layout.composer.width == area.width
            &&& layout.timeline.x == area.x && layout.timeline.width == area.width
            &&& layout.timeline.y == area.y
            &&& 0 < wanted < area.height ==> layout.timeline.height == area.height - wanted - 1
            &&& wanted == 0 ==> layout.timeline.height == area.height
            &&& wanted >= area.height ==> layout.timeline.height == 0
        }),
{
}

} // verus!
