//! Rectangles on the character grid and the fixed margin of the overlay.

use vstd::prelude::*;

verus! {

/// Cells left free between the overlay's target area and its content, on
/// each of the four sides.
pub const MARGIN: u16 = 2;

/// An axis-aligned rectangle of cells: its top-left corner and its extents.
#[derive(Clone, Copy, Debug, PartialEq, Eq, Structural)]
pub struct Region {
    pub x: u16,
    pub y: u16,
    pub width: u16,
    pub height: u16,
}

impl Region {
    /// The first column to the right of the region.
    pub open spec fn right(self) -> int {
        self.x + self.width
    }

    /// The first row below the region.
    pub open spec fn bottom(self) -> int {
        self.y + self.height
    }

    /// Both far edges are themselves coordinates of the grid.
    pub open spec fn fits(self) -> bool {
        self.right() <= u16::MAX && self.bottom() <= u16::MAX
    }

    /// The region holds no cell.
    pub open spec fn is_empty(self) -> bool {
        self.width == 0 || self.height == 0
    }

    /// The cell in column `col` and row `row` belongs to the region.
    pub open spec fn covers(self, col: int, row: int) -> bool {
        self.x <= col < self.right() && self.y <= row < self.bottom()
    }

    /// The region's box lies inside that of `outer`, edges included. An empty
    /// region is within `outer` when its corner is.
    pub open spec fn within(self, outer: Region) -> bool {
        &&& outer.x <= self.x
        &&& self.right() <= outer.right()
        &&& outer.y <= self.y
        &&& self.bottom() <= outer.bottom()
    }

    /// The rectangle at `(x, y)` with the given extents, each cut down so
    /// that the far edge stays a coordinate of the grid.
    pub open spec fn spec_new(x: u16, y: u16, width: u16, height: u16) -> Region {
        Region {
            x,
            y,
            width: if width > u16::MAX - x { (u16::MAX - x) as u16 } else { width },
            height: if height > u16::MAX - y { (u16::MAX - y) as u16 } else { height },
        }
    }

    /// Builds a region whose far edges fit the grid, cutting the extents down
    /// where they would not.
    pub fn new(x: u16, y: u16, width: u16, height: u16) -> (r: Region)
        ensures
            r == Self::spec_new(x, y, width, height),
            r.fits(),
    {
        let max_width: u16 = u16::MAX - x;
        let max_height: u16 = u16::MAX - y;
        Region {
            x,
            y,
            width: if width > max_width { max_width } else { width },
            height: if height > max_height { max_height } else { height },
        }
    }
}

/// `a - b`, or zero where `b` is the larger.
pub open spec fn spec_shrink(a: u16, b: u16) -> u16 {
    if a >= b { (a - b) as u16 } else { 0 }
}

/// `a + b`, or the last coordinate of the grid where the sum lies past it.
pub open spec fn spec_advance(a: u16, b: u16) -> u16 {
    if a + b <= u16::MAX { (a + b) as u16 } else { u16::MAX }
}

/// The container with `MARGIN` cells taken off each side: the corner moves
/// right and down by the margin, each extent loses twice the margin and
/// stops at zero. A corner that the margin would carry off the grid stops
/// at the grid's last coordinate, where no extent is left.
pub open spec fn spec_inset(container: Region) -> Region {
    Region::spec_new(
        spec_advance(container.x, MARGIN),
        spec_advance(container.y, MARGIN),
        spec_shrink(container.width, (2 * MARGIN) as u16),
        spec_shrink(container.height, (2 * MARGIN) as u16),
    )
}

/// Shrinks `container` by the margin on every side. A container narrower or
/// lower than twice the margin gives an inset with no width or no height,
/// and so does one whose corner the margin cannot move.
pub fn inset(container: &Region) -> (r: Region)
    ensures
        r == spec_inset(*container),
        r.fits(),
        r.width <= u16::MAX - 2 * MARGIN,
        r.height <= u16::MAX - 2 * MARGIN,
{
    Region::new(
        container.x.saturating_add(MARGIN),
        container.y.saturating_add(MARGIN),
        container.width.saturating_sub(2 * MARGIN),
        container.height.saturating_sub(2 * MARGIN),
    )
}

/// Every cell of the inset is a cell of the container.
pub proof fn lemma_inset_cells_in_container(container: Region, col: int, row: int)
    requires
        spec_inset(container).covers(col, row),
    ensures
        container.covers(col, row),
{
}

/// Every cell of the inset lies the margin away from each edge of the
/// container.
pub proof fn lemma_inset_cells_off_the_edge(container: Region, col: int, row: int)
    requires
        spec_inset(container).covers(col, row),
    ensures
        container.x + MARGIN <= col < container.right() - MARGIN,
        container.y + MARGIN <= row < container.bottom() - MARGIN,
{
}

} // verus!
