//! Screen areas and how a layout splits them. The split itself is the
//! work of ratatui's layout solver; only what holds of every answer it
//! may give is stated.
use ratatui::layout::{Constraint, Direction, Layout, Rect};
use vstd::prelude::*;

verus! {

/// A rectangle of terminal cells.
#[derive(Clone, Copy, Debug, PartialEq, Eq, Structural)]
pub struct Area {
    pub x: u16,
    pub y: u16,
    pub width: u16,
    pub height: u16,
}

/// The direction in which an area is split.
#[derive(Clone, Copy, Debug, PartialEq, Eq, Structural)]
pub enum Axis {
    Vertical,
    Horizontal,
}

/// What a part of a split asks for.
#[derive(Clone, Copy, Debug, PartialEq, Eq, Structural)]
pub enum Extent {
    /// At least this many cells.
    Min(u16),
    /// Exactly this many cells.
    Length(u16),
    /// This share of the area, in percent.
    Percentage(u16),
}

/// `part` lies inside `area`.
pub open spec fn inside(part: Area, area: Area) -> bool {
    &&& area.x <= part.x
    &&& part.x + part.width <= area.x + area.width
    &&& area.y <= part.y
    &&& part.y + part.height <= area.y + area.height
}

/// `part` can be a part of `area` split along `axis`: it lies inside the
/// area and spans all of it across the axis.
pub open spec fn split_part(part: Area, area: Area, axis: Axis) -> bool {
    &&& inside(part, area)
    &&& match axis {
        Axis::Vertical => part.x == area.x && part.width == area.width,
        Axis::Horizontal => part.y == area.y && part.height == area.height,
    }
}

/// `Layout::default().direction(..).constraints(..).split(area)`. Claimed,
/// from ratatui's source: one part per extent (one segment per
/// constraint); each part keeps the area's position and size across the
/// axis (`changes_to_rects`, no margin); along the axis it lies inside
/// the area, since every edge is a `REQUIRED` solver constraint within the
/// area's bounds and is rounded to a whole cell. Where along the axis each
/// part falls is left unsaid: ratatui documents that for some extents the
/// solver's answer is not determined, and it walks hash maps that each
/// process seeds.
#[verifier::external_body]
pub(crate) fn split_area(area: Area, axis: Axis, extents: &Vec<Extent>) -> (r: Vec<Area>)
    ensures
        r@.len() == extents@.len(),
        forall|i: int| 0 <= i < r@.len() ==> split_part(#[trigger] r@[i], area, axis),
{
    let direction = match axis {
        Axis::Vertical => Direction::Vertical,
        Axis::Horizontal => Direction::Horizontal,
    };
    let constraints = extents.iter().map(|e| match *e {
        Extent::Min(n) => Constraint::Min(n),
        Extent::Length(n) => Constraint::Length(n),
        Extent::Percentage(n) => Constraint::Percentage(n),
    });
    let rect = Rect { x: area.x, y: area.y, width: area.width, height: area.height };
    let parts = Layout::default().direction(direction).constraints(constraints).split(rect);
    parts.iter().map(|r| Area { x: r.x, y: r.y, width: r.width, height: r.height }).collect()
}

} // verus!
