//! Rectangles of terminal cells, and the columns that a text takes.

use vstd::prelude::*;

verus! {

/// A rectangle of terminal cells.
#[derive(Clone, Copy, Debug, PartialEq, Eq, Structural)]
pub struct Rect {
    pub x: u16,
    pub y: u16,
    pub width: u16,
    pub height: u16,
}

impl Rect {
    /// Whether the far edges can be told as well as the near ones.
    pub open spec fn valid(self) -> bool {
        self.x + self.width <= u16::MAX && self.y + self.height <= u16::MAX
    }

    /// Whether a cell lies in the rectangle.
    pub open spec fn covers(self, column: int, row: int) -> bool {
        &&& self.x <= column < self.x + self.width
        &&& self.y <= row < self.y + self.height
    }

    /// Whether another rectangle lies in this one.
    pub open spec fn encloses(self, other: Rect) -> bool {
        &&& self.x <= other.x && other.x + other.width <= self.x + self.width
        &&& self.y <= other.y && other.y + other.height <= self.y + self.height
    }
}

impl Default for Rect {
    fn default() -> (rect: Self)
        ensures
            rect == (Rect { x: 0, y: 0, width: 0, height: 0 }),
    {
        Rect { x: 0, y: 0, width: 0, height: 0 }
    }
}

/// The lesser of two numbers.
pub open spec fn lesser(a: int, b: int) -> int {
    if a < b {
        a
    } else {
        b
    }
}

/// `a` less `b`, but not below zero.
pub open spec fn less(a: int, b: int) -> int {
    if a < b {
        0
    } else {
        a - b
    }
}

/// The sum of two coordinates, or the largest coordinate where that is less.
pub open spec fn capped(a: int, b: int) -> u16 {
    if a + b > u16::MAX {
        u16::MAX
    } else {
        (a + b) as u16
    }
}

/// A rectangle at a place, cut off at the largest coordinates.
pub open spec fn rect_at(x: u16, y: u16, width: u16, height: u16) -> Rect {
    Rect {
        x,
        y,
        width: (capped(x as int, width as int) - x) as u16,
        height: (capped(y as int, height as int) - y) as u16,
    }
}

/// A rectangle without a margin on each side; nothing at the origin where the
/// margins leave no room.
pub open spec fn within(rect: Rect, margin: u16) -> Rect {
    let both = capped(margin as int, margin as int);
    if rect.width < both || rect.height < both {
        Rect { x: 0, y: 0, width: 0, height: 0 }
    } else {
        Rect {
            x: capped(rect.x as int, margin as int),
            y: capped(rect.y as int, margin as int),
            width: (rect.width - both) as u16,
            height: (rect.height - both) as u16,
        }
    }
}

/// `ratatui::layout::Rect::new`: the rectangle of the given size at a place. A
/// width or a height that would reach past the largest coordinate is cut off.
#[verifier::external_body]
pub(crate) fn new_rect(x: u16, y: u16, width: u16, height: u16) -> (rect: Rect)
    ensures
        rect == rect_at(x, y, width, height),
{
    let rect = ratatui::layout::Rect::new(x, y, width, height);
    Rect { x: rect.x, y: rect.y, width: rect.width, height: rect.height }
}

/// `ratatui::layout::Rect::inner` with the same margin on all sides: the
/// rectangle without the margin. One that is too small for it has nothing
/// inside, and then the origin is given.
#[verifier::external_body]
pub(crate) fn inner_rect(rect: Rect, margin: u16) -> (inner: Rect)
    ensures
        inner == within(rect, margin),
{
    let margin = ratatui::layout::Margin::new(margin, margin);
    let outer = ratatui::layout::Rect {
        x: rect.x,
        y: rect.y,
        width: rect.width,
        height: rect.height,
    };
    let inner = outer.inner(margin);
    Rect { x: inner.x, y: inner.y, width: inner.width, height: inner.height }
}

/// The terminal columns that `ratatui::text::Span::width` counts for a text.
pub uninterp spec fn column_width(text: Seq<char>) -> usize;

/// `ratatui::text::Span::width` on a raw span: the terminal columns that a text
/// takes, which depend on the text alone.
#[verifier::external_body]
pub(crate) fn text_width(text: &str) -> (width: usize)
    ensures
        width == column_width(text@),
{
    ratatui::text::Span::raw(text).width()
}

/// Whether a cell lies in a rectangle.
pub fn hits(rect: Rect, column: u16, row: u16) -> (hit: bool)
    ensures
        hit == rect.covers(column as int, row as int),
{
    column >= rect.x && column - rect.x < rect.width && row >= rect.y && row - rect.y < rect.height
}

/// The lesser of two numbers is one of them and above neither.
pub proof fn lemma_the_lesser_is_above_neither(a: int, b: int)
    ensures
        lesser(a, b) <= a,
        lesser(a, b) <= b,
        lesser(a, b) == a || lesser(a, b) == b,
{
}

/// What is taken away and what is left make up the number, as long as there is
/// enough; otherwise nothing is left.
pub proof fn lemma_taking_away_leaves_the_rest(a: int, b: int)
    ensures
        b <= a ==> less(a, b) + b == a,
        a <= b ==> less(a, b) == 0,
{
}

/// A rectangle that is asked for has its place and its size, as far as the
/// coordinates go.
pub proof fn lemma_rectangles_are_cut_off_at_the_edge(x: u16, y: u16, width: u16, height: u16)
    ensures
        rect_at(x, y, width, height).valid(),
        rect_at(x, y, width, height).x == x,
        rect_at(x, y, width, height).y == y,
        x + width <= u16::MAX ==> rect_at(x, y, width, height).width == width,
        x + width > u16::MAX ==> x + rect_at(x, y, width, height).width == u16::MAX,
        y + height <= u16::MAX ==> rect_at(x, y, width, height).height == height,
        y + height > u16::MAX ==> y + rect_at(x, y, width, height).height == u16::MAX,
{
}

/// A cell lies inside a border of one cell if and only if the cells around it lie
/// in the rectangle.
pub proof fn lemma_borders_are_one_cell_wide(rect: Rect, column: int, row: int)
    requires
        rect.valid(),
    ensures
        within(rect, 1).covers(column, row) <==> rect.covers(column - 1, row - 1) && rect.covers(
            column + 1,
            row + 1,
        ),
        rect.width >= 2 && rect.height >= 2 ==> within(rect, 1).x == rect.x + 1 && within(rect, 1).y
            == rect.y + 1,
{
}

/// A rectangle covers as many columns as it is wide and as many rows as it is
/// high, from its place on.
pub proof fn lemma_rectangles_cover_their_cells(rect: Rect, right: int, down: int)
    ensures
        rect.covers(rect.x + right, rect.y + down) <==> 0 <= right < rect.width && 0 <= down
            < rect.height,
{
}

} // verus!
