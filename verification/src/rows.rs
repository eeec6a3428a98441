//! A two-track vertical split: one row track that takes the slack above one
//! track of a fixed number of rows.

use vstd::prelude::*;
use ratatui::layout::{Constraint, Flex, Layout, Rect};
use crate::geometry::Region;

verus! {

/// The rows that the pinned track gets out of `area`: what it asks for, as
/// far as the area has them.
pub open spec fn spec_pinned_rows(area: Region, pinned: u16) -> u16 {
    if pinned <= area.height { pinned } else { area.height }
}

/// The two tracks of `area`, stacked with no gap: the pinned track sits at
/// the bottom with its rows, the flexible one above it has the rest. Both
/// span the area's columns.
pub open spec fn spec_split_rows(area: Region, pinned: u16) -> (Region, Region) {
    let low = spec_pinned_rows(area, pinned);
    (
        Region { x: area.x, y: area.y, width: area.width, height: (area.height - low) as u16 },
        Region {
            x: area.x,
            y: (area.y + area.height - low) as u16,
            width: area.width,
            height: low,
        },
    )
}

/// Where the space goes that no track takes: before the tracks, after
/// them, between them or around them. Beside a track that takes the slack
/// there is no such space, so the split is the same under each.
#[derive(Clone, Copy, Debug, PartialEq, Eq, Structural)]
pub enum Spread {
    Legacy,
    Start,
    End,
    Center,
    SpaceBetween,
    SpaceAround,
}

/// Calls `ratatui::layout::Layout::vertical` with the constraints
/// `Fill(weight)`, `Length(pinned)`, then `flex` with the spread, then
/// `areas`.
///
/// Not proved: that the solver behind that call gives the `Length` track its
/// rows before the `Fill` track gets any, lets the `Fill` track grow over
/// all that is left, whatever its weight, as no other track competes for
/// it, and leaves every gap at zero, whatever the spread, as a gap pulls
/// more weakly than the `Fill` track.
#[verifier::external_body]
pub(crate) fn split_rows(area: Region, spread: Spread, weight: u16, pinned: u16) -> (r: (
    Region,
    Region,
))
    requires
        area.fits(),
    ensures
        r == spec_split_rows(area, pinned),
{
    let flex = match spread {
        Spread::Legacy => Flex::Legacy,
        Spread::Start => Flex::Start,
        Spread::End => Flex::End,
        Spread::Center => Flex::Center,
        Spread::SpaceBetween => Flex::SpaceBetween,
        Spread::SpaceAround => Flex::SpaceAround,
    };
    let [upper, lower] = Layout::vertical([Constraint::Fill(weight), Constraint::Length(pinned)])
        .flex(flex)
        .areas(Rect { x: area.x, y: area.y, width: area.width, height: area.height });
    (
        Region { x: upper.x, y: upper.y, width: upper.width, height: upper.height },
        Region { x: lower.x, y: lower.y, width: lower.width, height: lower.height },
    )
}

} // verus!
