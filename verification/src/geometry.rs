//! Areas of a terminal screen.
use vstd::prelude::*;

verus! {

/// A cell of the screen.
#[derive(Debug, Clone, Copy, PartialEq, Eq, Structural)]
pub struct Position {
    pub x: u16,
    pub y: u16,
}

/// A rectangle of cells.
#[derive(Debug, Clone, Copy, PartialEq, Eq, Structural)]
pub struct Rect {
    pub x: u16,
    pub y: u16,
    pub width: u16,
    pub height: u16,
}

/// The smaller of two numbers.
pub open spec fn smaller(a: int, b: int) -> int {
    if a < b {
        a
    } else {
        b
    }
}

/// The difference of two numbers, or nothing where it would be negative.
pub open spec fn minus(a: int, b: int) -> int {
    if a > b {
        a - b
    } else {
        0
    }
}

/// The rectangle with a corner and a size, as far as it lies on a screen of the largest size.
pub open spec fn placed(x: int, y: int, width: int, height: int) -> Rect {
    Rect {
        x: x as u16,
        y: y as u16,
        width: smaller(width, 65535 - x) as u16,
        height: smaller(height, 65535 - y) as u16,
    }
}

impl Rect {
    /// Whether the rectangle ends on a screen of the largest size.
    pub open spec fn on_screen(self) -> bool {
        self.x + self.width <= 65535 && self.y + self.height <= 65535
    }

    /// Whether a cell lies in the rectangle.
    pub open spec fn covers(self, position: Position) -> bool {
        &&& self.x <= position.x < smaller(self.x + self.width, 65535)
        &&& self.y <= position.y < smaller(self.y + self.height, 65535)
    }

    /// Makes a rectangle. What does not fit on a screen of the largest size is cut off.
    pub fn new(x: u16, y: u16, width: u16, height: u16) -> (r: Rect)
        ensures
            r == placed(x as int, y as int, width as int, height as int),
            r.on_screen(),
    {
        let max_width: u16 = u16::MAX - x;
        let max_height: u16 = u16::MAX - y;
        Rect {
            x,
            y,
            width: if width < max_width {
                width
            } else {
                max_width
            },
            height: if height < max_height {
                height
            } else {
                max_height
            },
        }
    }

    /// The first column behind the rectangle.
    pub fn right(self) -> (r: u16)
        ensures
            r == smaller(self.x + self.width, 65535),
    {
        self.x.saturating_add(self.width)
    }

    /// The first row behind the rectangle.
    pub fn bottom(self) -> (r: u16)
        ensures
            r == smaller(self.y + self.height, 65535),
    {
        self.y.saturating_add(self.height)
    }

    /// Whether the rectangle has no cell.
    pub fn is_empty(self) -> (r: bool)
        ensures
            r == (self.width == 0 || self.height == 0),
    {
        self.width == 0 || self.height == 0
    }

    /// Whether a cell lies in the rectangle.
    pub fn contains(self, position: Position) -> (r: bool)
        ensures
            r == self.covers(position),
    {
        position.x >= self.x && position.x < self.right() && position.y >= self.y && position.y
            < self.bottom()
    }
}

/// The smaller of two numbers is one of them and not above either. A difference is never negative.
pub proof fn law_bounds_are_met(a: int, b: int)
    ensures
        smaller(a, b) == a || smaller(a, b) == b,
        smaller(a, b) <= a && smaller(a, b) <= b,
        a >= b ==> minus(a, b) + b == a,
        a <= b ==> minus(a, b) == 0,
{
}

/// A rectangle that fits on the screen stands where it was placed, in the size that was asked for, and one
/// that does not ends with the screen.
pub proof fn law_rectangle_stands_where_it_was_placed(x: u16, y: u16, width: u16, height: u16)
    ensures
        ({
            let r = placed(x as int, y as int, width as int, height as int);
            &&& r.x == x && r.y == y
            &&& x + width <= 65535 ==> r.width == width
            &&& y + height <= 65535 ==> r.height == height
            &&& x + width > 65535 ==> r.x + r.width == 65535
            &&& y + height > 65535 ==> r.y + r.height == 65535
        }),
{
}

/// A rectangle on the screen covers the cells from its corner on, as many as it is wide and high.
pub proof fn law_rectangle_covers_its_cells(area: Rect, position: Position)
    requires
        area.on_screen(),
    ensures
        area.covers(position) <==> area.x <= position.x && position.x < area.x + area.width && area.y
            <= position.y && position.y < area.y + area.height,
{
}

} // verus!
