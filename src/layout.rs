//! Where the two panes of the screen go.

use vstd::prelude::*;
use tui::layout::{Constraint, Direction, Layout, Rect};
use crate::state::App;

verus! {

/// A rectangle of terminal cells.
#[derive(Clone, Copy, Debug, PartialEq, Eq, Structural)]
pub struct Area {
    pub x: u16,
    pub y: u16,
    pub width: u16,
    pub height: u16,
}

/// Share of the width, in percent, that each of the two panes asks for.
pub const PANE_PERCENT: u16 = 50;

/// The area lies inside the coordinate range: its right and bottom edges do
/// not pass the largest coordinate.
pub open spec fn in_range(a: Area) -> bool {
    a.x + a.width <= u16::MAX && a.y + a.height <= u16::MAX
}

/// The left column of `a` whose width is `left_percent` of the whole, rounded down.
pub open spec fn left_column(a: Area, left_percent: u16) -> Area {
    Area { x: a.x, y: a.y, width: (left_percent * a.width / 100) as u16, height: a.height }
}

/// The column of `a` to the right of `left_column(a, left_percent)`, up to the right edge.
pub open spec fn right_column(a: Area, left_percent: u16) -> Area {
    let w = (left_percent * a.width / 100) as u16;
    Area { x: (a.x + w) as u16, y: a.y, width: (a.width - w) as u16, height: a.height }
}

/// Relies on tui's `Layout::split` with a horizontal direction, no margin and
/// two percentage constraints that add up to the whole: the solver places the
/// first column at the left edge with the exact share as its width, the
/// conversion to cells rounds that down, and the last column is stretched to
/// the right edge. `split` multiplies each percentage by the width in `u16`,
/// which overflows past the bound below.
#[verifier::external_body]
fn split_columns(area: Area, left_percent: u16, right_percent: u16) -> (r: (Area, Area))
    requires
        in_range(area),
        left_percent + right_percent == 100,
        left_percent * area.width <= u16::MAX,
        right_percent * area.width <= u16::MAX,
    ensures
        r.0 == left_column(area, left_percent),
        r.1 == right_column(area, left_percent),
{
    let rect = Rect { x: area.x, y: area.y, width: area.width, height: area.height };
    let chunks = Layout::default().direction(Direction::Horizontal).constraints(
        [Constraint::Percentage(left_percent), Constraint::Percentage(right_percent)].as_ref(),
    ).split(rect);
    let (a, b) = (chunks[0], chunks[1]);
    (
        Area { x: a.x, y: a.y, width: a.width, height: a.height },
        Area { x: b.x, y: b.y, width: b.width, height: b.height },
    )
}

/// The widest area that the two-pane split accepts.
pub const MAX_WIDTH: u16 = 1310;

/// The areas that `screen` can lay out.
pub open spec fn drawable(a: Area) -> bool {
    in_range(a) && a.width <= MAX_WIDTH
}

/// Where each pane of the screen goes.
#[derive(Clone, Copy, Debug, PartialEq, Eq, Structural)]
pub struct Screen {
    /// The left half, which holds the centred label.
    pub label_area: Area,
    /// The right half, which holds the bordered box.
    pub box_area: Area,
}

/// The two halves of `a`: the left one gets the smaller half of an odd width.
pub open spec fn halves(a: Area) -> Screen {
    Screen {
        label_area: Area { x: a.x, y: a.y, width: a.width / 2, height: a.height },
        box_area: Area {
            x: (a.x + a.width / 2) as u16,
            y: a.y,
            width: (a.width - a.width / 2) as u16,
            height: a.height,
        },
    }
}

/// Lays out the screen for a state in the given area. The popup flag has no
/// effect on the layout.
pub fn screen(app: &App, area: Area) -> (r: Screen)
    requires
        drawable(area),
    ensures
        r == halves(area),
{
    assert(PANE_PERCENT * area.width <= u16::MAX) by (nonlinear_arith)
        requires
            area.width <= MAX_WIDTH,
            PANE_PERCENT == 50,
            MAX_WIDTH == 1310,
    ;
    assert(PANE_PERCENT * area.width / 100 == area.width / 2) by (nonlinear_arith)
        requires
            PANE_PERCENT == 50,
    ;
    let (left, right) = split_columns(area, PANE_PERCENT, PANE_PERCENT);
    Screen { label_area: left, box_area: right }
}

/// The two panes tile the area: side by side, each as tall as the area, and
/// together exactly as wide. Each is within rounding of half the width.
pub proof fn lemma_halves_balanced(a: Area)
    requires
        drawable(a),
    ensures
        halves(a).label_area.x == a.x,
        halves(a).box_area.x == halves(a).label_area.x + halves(a).label_area.width,
        halves(a).label_area.width + halves(a).box_area.width == a.width,
        halves(a).label_area.y == a.y && halves(a).box_area.y == a.y,
        halves(a).label_area.height == a.height && halves(a).box_area.height == a.height,
        a.width - 1 <= 2 * halves(a).label_area.width <= a.width,
        a.width <= 2 * halves(a).box_area.width <= a.width + 1,
{
}

} // verus!
