//! A scrolling panel: a header, a content with a scroll bar, and a footer.
use crate::geometry;
use crate::geometry::Rect;
use vstd::prelude::*;

verus! {

/// Where a panel is scrolled to.
#[derive(Debug, Clone, Copy, PartialEq, Eq, Structural)]
pub struct PanelScroll {
    /// The first line that is shown.
    pub scroll_offset: usize,
    /// The largest offset at which the content still fills the page.
    pub max_scroll: usize,
    /// The lines that are shown at once.
    pub page_height: usize,
}

/// Where a scroll bar stands and what it shows.
#[derive(Debug, Clone, Copy, PartialEq, Eq, Structural)]
pub struct PanelScrollbar {
    pub area: Rect,
    pub content_length: usize,
    pub position: usize,
    pub viewport_length: usize,
}

/// Where the parts of a panel stand.
#[derive(Debug, Clone, Copy, PartialEq, Eq, Structural)]
pub struct PanelFrame {
    pub header: Rect,
    pub content: Rect,
    /// The lines of the content that are scrolled away, as far as the screen can count.
    pub scroll: u16,
    pub scrollbar: Option<PanelScrollbar>,
    pub footer: Option<Rect>,
}

/// The area of a panel without the columns left and right of it.
pub open spec fn inner_area(area: Rect) -> Rect {
    geometry::placed(
        geometry::smaller(area.x + 1, 65535),
        area.y as int,
        geometry::minus(area.width as int, 2),
        area.height as int,
    )
}

/// The area of the content. A column is always left for the scroll bar, so that the lines are not
/// wrapped anew when it appears.
pub open spec fn content_area_of(area: Rect) -> Rect {
    let inner = inner_area(area);
    geometry::placed(
        inner.x as int,
        geometry::smaller(inner.y + 2, 65535),
        geometry::minus(inner.width as int, 1),
        geometry::minus(inner.height as int, 3),
    )
}

/// The page step: what is shown at once, and one line at least.
pub open spec fn page_step(scroll: PanelScroll) -> int {
    if scroll.page_height < 1 {
        1
    } else {
        scroll.page_height as int
    }
}

/// The parts of a panel with so many lines of content.
pub open spec fn frame_of(area: Rect, scroll: PanelScroll, line_count: usize) -> PanelFrame {
    let inner = inner_area(area);
    let content = content_area_of(area);
    PanelFrame {
        header: geometry::placed(inner.x as int, inner.y as int, inner.width as int, 1),
        content,
        scroll: geometry::smaller(scroll.scroll_offset as int, 65535) as u16,
        scrollbar: if scroll.max_scroll > 0 {
            Some(
                PanelScrollbar {
                    area: geometry::placed(
                        geometry::smaller(content.x + content.width, 65535),
                        content.y as int,
                        1,
                        content.height as int,
                    ),
                    content_length: line_count,
                    position: scroll.scroll_offset,
                    viewport_length: scroll.page_height,
                },
            )
        } else {
            None
        },
        footer: if inner.height > 1 {
            Some(
                geometry::placed(
                    inner.x as int,
                    geometry::minus(geometry::smaller(inner.y + inner.height, 65535), 1),
                    inner.width as int,
                    1,
                ),
            )
        } else {
            None
        },
    }
}

/// The area in which the content of a panel is drawn.
pub fn content_area(area: Rect) -> (r: Rect)
    ensures
        r == content_area_of(area),
{
    let inner = inner(area);
    Rect::new(
        inner.x,
        inner.y.saturating_add(2),
        inner.width.saturating_sub(1),
        inner.height.saturating_sub(3),
    )
}

fn inner(area: Rect) -> (r: Rect)
    ensures
        r == inner_area(area),
{
    Rect::new(area.x.saturating_add(1), area.y, area.width.saturating_sub(2), area.height)
}

impl PanelScroll {
    /// Whether the offset leaves no part of the page without content.
    pub open spec fn well_formed(self) -> bool {
        self.scroll_offset <= self.max_scroll
    }

    /// The scroll state after the content was measured.
    pub open spec fn fitted(self, line_count: nat, page_height: nat) -> PanelScroll {
        let max_scroll = geometry::minus(line_count as int, page_height as int);
        PanelScroll {
            scroll_offset: geometry::smaller(self.scroll_offset as int, max_scroll) as usize,
            max_scroll: max_scroll as usize,
            page_height: page_height as usize,
        }
    }

    /// A panel that was never drawn.
    pub fn new(page_height: usize) -> (r: Self)
        ensures
            r == (PanelScroll { scroll_offset: 0, max_scroll: 0, page_height }),
    {
        PanelScroll { scroll_offset: 0, max_scroll: 0, page_height }
    }

    /// Goes back to the start.
    pub fn reset(&mut self)
        ensures
            *final(self) == (PanelScroll { scroll_offset: 0, max_scroll: 0, page_height: 1 }),
    {
        *self = PanelScroll::new(1);
    }

    /// One line up.
    pub fn scroll_up(&mut self)
        ensures
            final(self).scroll_offset == geometry::minus(old(self).scroll_offset as int, 1),
            final(self).max_scroll == old(self).max_scroll,
            final(self).page_height == old(self).page_height,
    {
        self.scroll_offset = self.scroll_offset.saturating_sub(1);
    }

    /// One line down, up to the largest offset.
    pub fn scroll_down(&mut self)
        ensures
            final(self).scroll_offset == geometry::smaller(
                old(self).scroll_offset + 1,
                old(self).max_scroll as int,
            ),
            final(self).max_scroll == old(self).max_scroll,
            final(self).page_height == old(self).page_height,
    {
        self.move_down(1);
    }

    /// One page up.
    pub fn page_up(&mut self)
        ensures
            final(self).scroll_offset == geometry::minus(
                old(self).scroll_offset as int,
                page_step(*old(self)),
            ),
            final(self).max_scroll == old(self).max_scroll,
            final(self).page_height == old(self).page_height,
    {
        let step: usize = self.step();
        self.scroll_offset = self.scroll_offset.saturating_sub(step);
    }

    /// One page down, up to the largest offset.
    pub fn page_down(&mut self)
        ensures
            final(self).scroll_offset == geometry::smaller(
                old(self).scroll_offset + page_step(*old(self)),
                old(self).max_scroll as int,
            ),
            final(self).max_scroll == old(self).max_scroll,
            final(self).page_height == old(self).page_height,
    {
        let step: usize = self.step();
        self.move_down(step);
    }

    fn step(&self) -> (r: usize)
        ensures
            r == page_step(*self),
    {
        if self.page_height < 1 {
            1
        } else {
            self.page_height
        }
    }

    fn move_down(&mut self, step: usize)
        ensures
            final(self).scroll_offset == geometry::smaller(
                old(self).scroll_offset + step,
                old(self).max_scroll as int,
            ),
            final(self).max_scroll == old(self).max_scroll,
            final(self).page_height == old(self).page_height,
    {
        let moved: usize = self.scroll_offset.saturating_add(step);
        self.scroll_offset = if moved < self.max_scroll {
            moved
        } else {
            self.max_scroll
        };
    }

    /// Fits the panel into an area and returns where its parts stand. An empty area changes
    /// nothing, and nothing is drawn in it.
    pub fn draw(&mut self, area: Rect, line_count: usize) -> (r: Option<PanelFrame>)
        ensures
            if area.width == 0 || area.height == 0 {
                r is None && *final(self) == *old(self)
            } else {
                &&& *final(self) == old(self).fitted(
                    line_count as nat,
                    content_area_of(area).height as nat,
                )
                &&& r == Some(frame_of(area, *final(self), line_count))
            },
    {
        if area.is_empty() {
            return None;
        }
        let inner = inner(area);
        let content = content_area(area);
        self.page_height = content.height as usize;
        self.max_scroll = line_count.saturating_sub(self.page_height);
        if self.scroll_offset > self.max_scroll {
            self.scroll_offset = self.max_scroll;
        }
        let scroll: u16 = if self.scroll_offset < 65535 {
            self.scroll_offset as u16
        } else {
            u16::MAX
        };
        let scrollbar = if self.max_scroll > 0 {
            Some(
                PanelScrollbar {
                    area: Rect::new(content.right(), content.y, 1, content.height),
                    content_length: line_count,
                    position: self.scroll_offset,
                    viewport_length: self.page_height,
                },
            )
        } else {
            None
        };
        let footer = if inner.height > 1 {
            Some(Rect::new(inner.x, inner.bottom().saturating_sub(1), inner.width, 1))
        } else {
            None
        };
        Some(
            PanelFrame {
                header: Rect::new(inner.x, inner.y, inner.width, 1),
                content,
                scroll,
                scrollbar,
                footer,
            },
        )
    }
}

/// A drawn panel shows no empty line while there is content above it: the lines that are scrolled
/// away and those that fit together are at most the content.
pub proof fn law_panel_is_filled(scroll: PanelScroll, line_count: nat, page_height: nat)
    requires
        line_count <= usize::MAX,
        page_height <= usize::MAX,
    ensures
        ({
            let fitted = scroll.fitted(line_count, page_height);
            &&& fitted.well_formed()
            &&& fitted.scroll_offset > 0 ==> fitted.scroll_offset + page_height <= line_count
        }),
{
}

/// The parts of a panel lie inside its area and do not share a cell.
pub proof fn law_panel_parts_are_apart(
    area: Rect,
    scroll: PanelScroll,
    line_count: usize,
    position: geometry::Position,
)
    requires
        area.on_screen(),
        area.width >= 3,
        area.height >= 1,
    ensures
        ({
            let frame = frame_of(area, scroll, line_count);
            let in_header = frame.header.covers(position);
            let in_content = frame.content.covers(position);
            let in_bar = frame.scrollbar matches Some(bar) && bar.area.covers(position);
            let in_footer = frame.footer matches Some(footer) && footer.covers(position);
            &&& in_header || in_content || in_bar || in_footer ==> area.covers(position)
            &&& !(in_header && (in_content || in_bar || in_footer))
            &&& !(in_content && (in_bar || in_footer))
            &&& !(in_bar && in_footer)
        }),
{
}

/// A measured panel can scroll exactly by the lines that do not fit, stays where it was scrolled to as far
/// as that is possible, and knows the height of its page.
pub proof fn law_panel_scrolls_by_what_does_not_fit(
    scroll: PanelScroll,
    line_count: usize,
    page_height: usize,
)
    ensures
        ({
            let fitted = scroll.fitted(line_count as nat, page_height as nat);
            &&& line_count > page_height ==> fitted.max_scroll == line_count - page_height
            &&& line_count <= page_height ==> fitted.max_scroll == 0
            &&& scroll.scroll_offset <= fitted.max_scroll ==> fitted.scroll_offset
                == scroll.scroll_offset
            &&& scroll.scroll_offset > fitted.max_scroll ==> fitted.scroll_offset
                == fitted.max_scroll
            &&& fitted.page_height == page_height
        }),
{
}

/// A page is what is shown at once, and one line at least.
pub proof fn law_page_step_is_a_page(scroll: PanelScroll)
    ensures
        scroll.page_height >= 1 ==> page_step(scroll) == scroll.page_height,
        scroll.page_height == 0 ==> page_step(scroll) == 1,
{
}

/// The header is the first row of a panel and the footer the last, where there is another row. The content
/// starts two rows below the header and ends above the footer. A column is left free on both sides, and
/// one more is the scroll bar's, which is shown exactly if there is something to scroll.
pub proof fn law_panel_parts_stand_in_order(area: Rect, scroll: PanelScroll, line_count: usize)
    requires
        area.on_screen(),
        area.width >= 3,
        area.height >= 3,
    ensures
        ({
            let frame = frame_of(area, scroll, line_count);
            &&& frame.header.x == area.x + 1 && frame.header.width == area.width - 2
            &&& frame.header.y == area.y && frame.header.height == 1
            &&& frame.footer matches Some(footer) && footer.y == area.y + area.height - 1
                && footer.height == 1 && footer.x == area.x + 1 && footer.width == area.width - 2
            &&& frame.content == content_area_of(area)
            &&& frame.content.x == area.x + 1 && frame.content.width == area.width - 3
            &&& frame.content.y == area.y + 2 && frame.content.height == area.height - 3
            &&& frame.scrollbar is Some <==> scroll.max_scroll > 0
            &&& frame.scrollbar matches Some(bar) ==> {
                &&& bar.area.x == frame.content.x + frame.content.width && bar.area.width == 1
                &&& bar.area.y == frame.content.y && bar.area.height == frame.content.height
                &&& bar.content_length == line_count
                &&& bar.position == scroll.scroll_offset
                &&& bar.viewport_length == scroll.page_height
            }
            &&& scroll.scroll_offset <= 65535 ==> frame.scroll == scroll.scroll_offset
            &&& scroll.scroll_offset > 65535 ==> frame.scroll == 65535
        }),
{
}

/// A panel of a single row has no footer.
pub proof fn law_single_row_is_the_header(area: Rect, scroll: PanelScroll, line_count: usize)
    requires
        area.on_screen(),
        area.height >= 1,
    ensures
        frame_of(area, scroll, line_count).footer is None <==> area.height == 1,
        frame_of(area, scroll, line_count).header.height == 1,
{
}

} // verus!
