//! Where things go on the terminal: the command sidebar beside the main
//! area, and the centred box of a modal. The splitting itself is done by
//! ratatui's layout solver.

use vstd::prelude::*;
use ratatui::layout::{Constraint, Direction, Layout, Rect};

verus! {

/// A rectangle of terminal cells.
#[derive(Clone, Copy, Debug, PartialEq, Eq, Structural)]
pub struct Area {
    pub x: u16,
    pub y: u16,
    pub width: u16,
    pub height: u16,
}

/// The direction in which an area is cut into parts.
#[derive(Clone, Copy, Debug, PartialEq, Eq, Structural)]
pub enum Axis {
    /// Parts side by side, left to right.
    Horizontal,
    /// Parts stacked, top to bottom.
    Vertical,
}

/// How large one part should be.
#[derive(Clone, Copy, Debug, PartialEq, Eq, Structural)]
pub enum Extent {
    /// At least this many cells.
    Min(u16),
    /// Exactly this many cells.
    Length(u16),
    /// This percentage of the whole.
    Percentage(u16),
}

/// The parts into which ratatui's `Layout::split` cuts `area` along `axis`
/// for the given extents, one part per extent. It is only claimed for the two
/// shapes this crate lays out (`sidebar_extents`, `middle_extents`), whose
/// best split is unique: for over-constrained layouts the solver's answer
/// may depend on the order in which it happens to pivot.
pub uninterp spec fn layout_split(area: Area, axis: Axis, extents: Seq<Extent>) -> Seq<Area>;

/// Cuts `area` into parts with ratatui's `Layout::default()` (given direction
/// and constraints) `.split(..)`.
///
/// Claimed of it, for the two shapes it is allowed: the result is
/// `layout_split` of the arguments (the solver keeps no state that changes
/// the answer, only a cache of earlier answers, and these shapes have one
/// best split), and it has one part per extent (the solver makes one segment
/// per constraint). What the parts are is not stated. The solver panics only
/// on an unsatisfiable required constraint, which these shapes never hold.
#[verifier::external_body]
fn split(area: Area, axis: Axis, extents: Vec<Extent>) -> (parts: Vec<Area>)
    requires
        extents@ == sidebar_extents() || exists|p: u16| p <= 100 && extents@ == #[trigger] middle_extents(p),
    ensures
        parts@ == layout_split(area, axis, extents@),
        parts@.len() == extents@.len(),
{
    let direction = match axis {
        Axis::Horizontal => Direction::Horizontal,
        Axis::Vertical => Direction::Vertical,
    };
    let constraints = extents.iter().map(|e| match *e {
        Extent::Min(n) => Constraint::Min(n),
        Extent::Length(n) => Constraint::Length(n),
        Extent::Percentage(n) => Constraint::Percentage(n),
    });
    let rect = Rect { x: area.x, y: area.y, width: area.width, height: area.height };
    let parts = Layout::default().direction(direction).constraints(constraints).split(rect);
    parts.iter().map(|r| Area { x: r.x, y: r.y, width: r.width, height: r.height }).collect()
}

/// The width of the command sidebar.
pub const SIDEBAR_WIDTH: u16 = 24;

/// The extents that put a sidebar on the right of the main area.
pub open spec fn sidebar_extents() -> Seq<Extent> {
    seq![Extent::Min(0), Extent::Length(SIDEBAR_WIDTH)]
}

/// The main area (left) and the command sidebar (right) of `area`.
pub fn sidebar_split(area: Area) -> (r: (Area, Area))
    ensures
        r.0 == layout_split(area, Axis::Horizontal, sidebar_extents())[0],
        r.1 == layout_split(area, Axis::Horizontal, sidebar_extents())[1],
{
    let mut extents: Vec<Extent> = Vec::new();
    extents.push(Extent::Min(0));
    extents.push(Extent::Length(SIDEBAR_WIDTH));
    assert(extents@ =~= sidebar_extents());
    let parts = split(area, Axis::Horizontal, extents);
    (parts[0], parts[1])
}

/// The three bands that put a middle band of `pct` percent between two
/// equal margins.
pub open spec fn middle_extents(pct: u16) -> Seq<Extent> {
    let margin = ((100 - pct) / 2) as u16;
    seq![Extent::Percentage(margin), Extent::Percentage(pct), Extent::Percentage(margin)]
}

/// The middle band of `area` along `axis`, `pct` percent of it.
pub open spec fn middle_band(area: Area, axis: Axis, pct: u16) -> Area {
    layout_split(area, axis, middle_extents(pct))[1]
}

/// A rectangle centred in `area`, `pct_x` percent of its width and `pct_y`
/// percent of its height: the middle band of the middle band.
pub open spec fn centered_rect_spec(pct_x: u16, pct_y: u16, area: Area) -> Area {
    middle_band(middle_band(area, Axis::Vertical, pct_y), Axis::Horizontal, pct_x)
}

fn middle(area: Area, axis: Axis, pct: u16) -> (r: Area)
    requires
        pct <= 100,
    ensures
        r == middle_band(area, axis, pct),
{
    let margin = (100 - pct) / 2;
    let mut extents: Vec<Extent> = Vec::new();
    extents.push(Extent::Percentage(margin));
    extents.push(Extent::Percentage(pct));
    extents.push(Extent::Percentage(margin));
    assert(extents@ =~= middle_extents(pct));
    let parts = split(area, axis, extents);
    parts[1]
}

/// A rectangle centred in `area`, sized `pct_x` × `pct_y` percent of it,
/// for modal boxes. (A vertical split picks the middle band, then a
/// horizontal split picks the middle column of that band.)
pub fn centered_rect(pct_x: u16, pct_y: u16, area: Area) -> (r: Area)
    requires
        pct_x <= 100,
        pct_y <= 100,
    ensures
        r == centered_rect_spec(pct_x, pct_y, area),
{
    let band = middle(area, Axis::Vertical, pct_y);
    middle(band, Axis::Horizontal, pct_x)
}

} // verus!
