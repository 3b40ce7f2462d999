//! Where the panes stand on the screen.
use ratatui::layout::{Constraint, Layout, Rect};
use vstd::prelude::*;

verus! {

/// The height of the status line.
pub const STATUS_HEIGHT: u16 = 1;

/// The width of the sidebar.
pub const SIDEBAR_WIDTH: u16 = 40;

/// A rectangle of cells. `x` and `y` are its left column and its top row.
#[derive(Clone, Copy, Debug, PartialEq, Eq, Structural)]
pub struct Area {
    pub x: u16,
    pub y: u16,
    pub width: u16,
    pub height: u16,
}

impl Area {
    /// Whether the column and the row behind the rectangle can be numbered.
    pub open spec fn well_formed(self) -> bool {
        self.x + self.width <= u16::MAX && self.y + self.height <= u16::MAX
    }

    /// Whether the cell in the given column and row lies in the rectangle.
    pub open spec fn contains(self, column: int, row: int) -> bool {
        self.x <= column < self.x + self.width && self.y <= row < self.y + self.height
    }
}

/// The smaller of two numbers.
pub open spec fn least(a: u16, b: u16) -> u16 {
    if a <= b {
        a
    } else {
        b
    }
}

/// The part of `area` above its lowest `bottom` rows.
pub open spec fn above(area: Area, bottom: u16) -> Area {
    Area { height: (area.height - least(bottom, area.height)) as u16, ..area }
}

/// The lowest `bottom` rows of `area`, or all of them if it has fewer.
pub open spec fn below(area: Area, bottom: u16) -> Area {
    let height = least(bottom, area.height);
    Area { y: (area.y + area.height - height) as u16, height, ..area }
}

/// The first `left` columns of `area`, or all of them if it has fewer.
pub open spec fn left_of(area: Area, left: u16) -> Area {
    Area { width: least(left, area.width), ..area }
}

/// The part of `area` to the right of its first `left` columns.
pub open spec fn right_of(area: Area, left: u16) -> Area {
    let width = least(left, area.width);
    Area { x: (area.x + width) as u16, width: (area.width - width) as u16, ..area }
}

/// Splits an area by `ratatui::layout::Layout::vertical` with the constraints `Fill(1)` and
/// `Length(bottom)`: the lower part has `bottom` rows, or all of them if there are fewer, and the
/// upper part has the rest.
#[verifier::external_body]
fn split_rows(area: Area, bottom: u16) -> (r: (Area, Area))
    requires
        area.well_formed(),
    ensures
        r.0 == above(area, bottom),
        r.1 == below(area, bottom),
{
    let [a, b] = Layout::vertical([Constraint::Fill(1), Constraint::Length(bottom)]).areas(
        Rect::new(area.x, area.y, area.width, area.height),
    );
    (
        Area { x: a.x, y: a.y, width: a.width, height: a.height },
        Area { x: b.x, y: b.y, width: b.width, height: b.height },
    )
}

/// Splits an area by `ratatui::layout::Layout::horizontal` with the constraints `Length(left)` and
/// `Fill(1)`: the left part has `left` columns, or all of them if there are fewer, and the right
/// part has the rest.
#[verifier::external_body]
fn split_columns(area: Area, left: u16) -> (r: (Area, Area))
    requires
        area.well_formed(),
    ensures
        r.0 == left_of(area, left),
        r.1 == right_of(area, left),
{
    let [a, b] = Layout::horizontal([Constraint::Length(left), Constraint::Fill(1)]).areas(
        Rect::new(area.x, area.y, area.width, area.height),
    );
    (
        Area { x: a.x, y: a.y, width: a.width, height: a.height },
        Area { x: b.x, y: b.y, width: b.width, height: b.height },
    )
}

/// The panes of the screen.
#[derive(Clone, Copy, Debug, PartialEq, Eq, Structural)]
pub struct Panes {
    pub sidebar: Area,
    pub content: Area,
    pub status: Area,
}

/// The panes of a screen: the status line at the bottom, the sidebar on the left above it, and the
/// content next to the sidebar.
pub open spec fn panes_of(screen: Area) -> Panes {
    let main = above(screen, STATUS_HEIGHT);
    Panes {
        sidebar: left_of(main, SIDEBAR_WIDTH),
        content: right_of(main, SIDEBAR_WIDTH),
        status: below(screen, STATUS_HEIGHT),
    }
}

/// The panes of a screen.
pub fn panes(screen: Area) -> (r: Panes)
    requires
        screen.well_formed(),
    ensures
        r == panes_of(screen),
{
    let (main, status) = split_rows(screen, STATUS_HEIGHT);
    let (sidebar, content) = split_columns(main, SIDEBAR_WIDTH);
    Panes { sidebar, content, status }
}

/// A length without the two cells of a border.
pub open spec fn within_border(length: u16) -> u16 {
    if length >= 2 {
        (length - 2) as u16
    } else {
        0
    }
}

/// The rows and the columns inside the border of the content pane.
pub fn content_pane_size(screen: Area) -> (r: (u16, u16))
    requires
        screen.well_formed(),
    ensures
        r.0 == within_border(panes_of(screen).content.height),
        r.1 == within_border(panes_of(screen).content.width),
{
    let content: Area = panes(screen).content;
    (content.height.saturating_sub(2), content.width.saturating_sub(2))
}

/// A number of rows or columns that a terminal can have.
pub open spec fn at_least_one(n: u16) -> u16 {
    if n == 0 {
        1
    } else {
        n
    }
}

/// `n`, but one at least.
pub fn positive(n: u16) -> (r: u16)
    ensures
        r == at_least_one(n),
{
    if n == 0 {
        1
    } else {
        n
    }
}

/// The rows and the columns of a text editor inside the border of `pane`: one at least of each.
pub fn editor_size(pane: Area) -> (r: (u16, u16))
    ensures
        r.0 == at_least_one(within_border(pane.height)),
        r.1 == at_least_one(within_border(pane.width)),
{
    (positive(pane.height.saturating_sub(2)), positive(pane.width.saturating_sub(2)))
}

/// Each cell of the screen lies in exactly one pane, and each cell of a pane on the screen.
pub proof fn law_panes_tile_the_screen(screen: Area, column: int, row: int)
    requires
        screen.well_formed(),
    ensures
        ({
            let panes = panes_of(screen);
            let s = panes.sidebar.contains(column, row);
            let c = panes.content.contains(column, row);
            let t = panes.status.contains(column, row);
            &&& screen.contains(column, row) <==> s || c || t
            &&& !(s && c)
            &&& !(s && t)
            &&& !(c && t)
        }),
{
}

/// The status line is the last row of the screen, and the sidebar has forty columns at the left edge,
/// or fewer where the screen has fewer.
pub proof fn law_panes_stand_at_the_edges(screen: Area)
    requires
        screen.well_formed(),
    ensures
        ({
            let panes = panes_of(screen);
            &&& panes.status.width == screen.width && panes.status.x == screen.x
            &&& panes.status.y + panes.status.height == screen.y + screen.height
            &&& screen.height >= 1 ==> panes.status.height == 1
            &&& screen.height == 0 ==> panes.status.height == 0
            &&& panes.sidebar.x == screen.x && panes.sidebar.y == screen.y
            &&& screen.width >= 40 ==> panes.sidebar.width == 40
            &&& screen.width < 40 ==> panes.sidebar.width == screen.width
            &&& panes.sidebar.height + panes.status.height == screen.height
            &&& panes.content.y == screen.y && panes.content.height == panes.sidebar.height
            &&& panes.content.x == panes.sidebar.x + panes.sidebar.width
            &&& panes.content.width + panes.sidebar.width == screen.width
        }),
{
}

/// A border takes two cells of a length, where there are two. A text editor has one cell at least.
pub proof fn law_border_takes_two(length: u16)
    ensures
        length >= 2 ==> within_border(length) + 2 == length,
        length < 2 ==> within_border(length) == 0,
        length >= 3 ==> at_least_one(within_border(length)) + 2 == length,
        length < 3 ==> at_least_one(within_border(length)) == 1,
{
}

} // verus!
