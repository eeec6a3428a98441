//! The drawing surface: a `ratatui` buffer, what its cells hold, and the
//! primitives that the overlay draws with.

use vstd::prelude::*;
use ratatui::buffer::Buffer;
use ratatui::layout::Rect;
use ratatui::style::{Color, Style, Stylize};
use ratatui::text::Line;
use ratatui::widgets::{Block, Borders, Clear, Padding, Paragraph, Widget, Wrap};
use crate::content::{Alignment, Rgb, TextBlock};
use crate::text::spec_narrow_text;
use crate::geometry::Region;

verus! {

/// `ratatui::buffer::Buffer`: a grid of cells over an area of the screen.
#[verifier::external_type_specification]
#[verifier::external_body]
pub struct ExBuffer(Buffer);

/// A colour of a cell.
pub enum Tint {
    /// The terminal's own default.
    Reset,
    /// One of the sixteen named colours, by its number.
    Named(u8),
    /// A colour by its parts.
    Rgb(u8, u8, u8),
    /// An entry of the 256-colour table.
    Indexed(u8),
}

/// What one cell of the surface shows.
pub struct Glyph {
    pub symbol: Seq<char>,
    pub fg: Tint,
    pub bg: Tint,
    /// The text attributes (bold, italic and so on), one bit each.
    pub modifier: u16,
    /// Whether the cell is left out when the surface goes to the screen.
    pub skip: bool,
}

/// The cells of a surface by their position, column first.
pub type Cells = Map<(u16, u16), Glyph>;

/// The sides of a box that have a border.
#[derive(Clone, Copy, Debug, PartialEq, Eq, Structural)]
pub struct Sides {
    pub left: bool,
    pub top: bool,
    pub right: bool,
    pub bottom: bool,
}

/// Space taken off the inside of a bordered box, side by side.
#[derive(Clone, Copy, Debug, PartialEq, Eq, Structural)]
pub struct Insets {
    pub left: u16,
    pub right: u16,
    pub top: u16,
    pub bottom: u16,
}

/// The cells that `buf` holds: one for each position at which the buffer
/// can be read and written.
pub uninterp spec fn buffer_cells(buf: Buffer) -> Cells;

/// The cells after a text block has been drawn into `area`: its text as one
/// line, wrapped at word boundaries to the area's width, from the area's
/// first row down as far as the area has rows.
pub uninterp spec fn text_drawn(
    cells: Cells,
    area: Region,
    text: Seq<char>,
    color: Rgb,
    alignment: Alignment,
    trim: bool,
) -> Cells;

/// An empty cell: one space in the terminal's default colours.
pub open spec fn blank() -> Glyph {
    Glyph { symbol: seq![' '], fg: Tint::Reset, bg: Tint::Reset, modifier: 0, skip: false }
}

/// Every cell of `area` is a cell of the surface.
pub open spec fn drawable(cells: Cells, area: Region) -> bool {
    forall|col: u16, row: u16|
        area.covers(col as int, row as int) ==> #[trigger] cells.dom().contains((col, row))
}

/// `after` has the cells of `before`, and differs from it inside `area`
/// at most.
pub open spec fn same_outside(before: Cells, after: Cells, area: Region) -> bool {
    &&& after.dom() == before.dom()
    &&& forall|col: u16, row: u16|
        before.dom().contains((col, row)) && !area.covers(col as int, row as int)
            ==> #[trigger] after[(col, row)] == before[(col, row)]
}

/// `after` has the cells of `before`, each with the background, the
/// attributes and the skip mark that it had.
pub open spec fn same_ground(before: Cells, after: Cells) -> bool {
    &&& after.dom() == before.dom()
    &&& forall|col: u16, row: u16|
        before.dom().contains((col, row)) ==> {
            &&& (#[trigger] after[(col, row)]).bg == before[(col, row)].bg
            &&& after[(col, row)].modifier == before[(col, row)].modifier
            &&& after[(col, row)].skip == before[(col, row)].skip
        }
}

/// The cells with every cell of `area` made blank.
pub open spec fn cleared(cells: Cells, area: Region) -> Cells {
    Map::new(
        |p: (u16, u16)| cells.dom().contains(p),
        |p: (u16, u16)| if area.covers(p.0 as int, p.1 as int) { blank() } else { cells[p] },
    )
}

/// The border character at a position of `area`, if the position lies on
/// a side that has a border: a corner where two such sides meet, else a
/// line along the side. Where the area is one cell wide or high, several
/// sides fall on one cell. A corner then goes before a side; among the
/// corners the order is top left, bottom left, top right, bottom right, and
/// among the sides bottom, right, top, left.
pub open spec fn spec_border_symbol(area: Region, sides: Sides, col: int, row: int) -> Option<
    char,
> {
    let on_left = sides.left && col == area.x;
    let on_top = sides.top && row == area.y;
    let on_right = sides.right && col == area.right() - 1;
    let on_bottom = sides.bottom && row == area.bottom() - 1;
    if on_left && on_top {
        Some('\u{250c}')
    } else if on_left && on_bottom {
        Some('\u{2514}')
    } else if on_right && on_top {
        Some('\u{2510}')
    } else if on_right && on_bottom {
        Some('\u{2518}')
    } else if on_bottom {
        Some('\u{2500}')
    } else if on_right {
        Some('\u{2502}')
    } else if on_top {
        Some('\u{2500}')
    } else if on_left {
        Some('\u{2502}')
    } else {
        None
    }
}

/// A cell of a bordered box: the background everywhere, and on the edge the
/// border character in the border's colour. Attributes and the skip mark
/// stay, and so does the symbol and its colour off the edge.
pub open spec fn spec_boxed_glyph(
    before: Glyph,
    edge: Option<char>,
    border: Rgb,
    background: Rgb,
) -> Glyph {
    let bg = Tint::Rgb(background.r, background.g, background.b);
    match edge {
        Some(c) => Glyph {
            symbol: seq![c],
            fg: Tint::Rgb(border.r, border.g, border.b),
            bg,
            modifier: before.modifier,
            skip: before.skip,
        },
        None => Glyph {
            symbol: before.symbol,
            fg: before.fg,
            bg,
            modifier: before.modifier,
            skip: before.skip,
        },
    }
}

/// The cells with a box drawn over `area`: a border on the given sides and
/// a background.
pub open spec fn boxed(
    cells: Cells,
    area: Region,
    sides: Sides,
    border: Rgb,
    background: Rgb,
) -> Cells {
    Map::new(
        |p: (u16, u16)| cells.dom().contains(p),
        |p: (u16, u16)|
            if area.covers(p.0 as int, p.1 as int) {
                spec_boxed_glyph(
                    cells[p],
                    spec_border_symbol(area, sides, p.0 as int, p.1 as int),
                    border,
                    background,
                )
            } else {
                cells[p]
            },
    )
}

/// Calls `Buffer::cell`, which looks up the cell at a position and gives
/// none where the position is outside the buffer.
///
/// Not proved: that the positions at which it gives a cell are those of
/// `buffer_cells`.
#[verifier::external_body]
fn has_cell(buf: &Buffer, col: u16, row: u16) -> (found: bool)
    ensures
        found == buffer_cells(*buf).dom().contains((col, row)),
{
    buf.cell((col, row)).is_some()
}

/// Renders `ratatui::widgets::Clear` over `area`, which resets each cell of
/// the area: its symbol to one space, its colours to the default, no
/// attribute, not skipped. It reaches for every cell of the area, so the
/// surface must hold them all.
#[verifier::external_body]
pub(crate) fn clear_region(area: Region, buf: &mut Buffer)
    requires
        area.fits(),
        drawable(buffer_cells(*old(buf)), area),
    ensures
        buffer_cells(*final(buf)) == cleared(buffer_cells(*old(buf)), area),
{
    Clear.render(Rect { x: area.x, y: area.y, width: area.width, height: area.height }, buf);
}

/// Renders a `ratatui::widgets::Block` over `area`: borders on the given
/// sides in the plain line set and the colour `border`, no title, the given
/// padding, the background `background`. The block sets the background of
/// every cell of the area, then writes the sides that have a border (left,
/// top, right, bottom) and then the corners between two of them (bottom
/// right, top right, bottom left, top left), each with the border's colour.
/// The padding bears on the block's inner area alone, which is not asked
/// for, and on no cell.
///
/// Not proved: that the block writes this and no more.
#[verifier::external_body]
pub(crate) fn draw_container(
    area: Region,
    sides: Sides,
    border: Rgb,
    background: Rgb,
    padding: Insets,
    buf: &mut Buffer,
)
    requires
        area.fits(),
        drawable(buffer_cells(*old(buf)), area),
    ensures
        buffer_cells(*final(buf)) == boxed(
            buffer_cells(*old(buf)),
            area,
            sides,
            border,
            background,
        ),
{
    let mut borders = Borders::NONE;
    borders.set(Borders::LEFT, sides.left);
    borders.set(Borders::TOP, sides.top);
    borders.set(Borders::RIGHT, sides.right);
    borders.set(Borders::BOTTOM, sides.bottom);
    Block::default()
        .borders(borders)
        .border_style(Style::default().fg(Color::Rgb(border.r, border.g, border.b)))
        .padding(Padding::new(padding.left, padding.right, padding.top, padding.bottom))
        .bg(Color::Rgb(background.r, background.g, background.b))
        .render(Rect { x: area.x, y: area.y, width: area.width, height: area.height }, buf);
}

/// Renders a `ratatui::widgets::Paragraph` into `area`: the block's text
/// as one line in the block's colour and alignment, wrapped with
/// `Wrap { trim }`.
///
/// The paragraph writes each wrapped line from its offset on, one cell for
/// each cluster that takes a column, and does not look at the area's width
/// again. Its word wrapper keeps a line within the width only as long as
/// every cluster takes exactly one column, and it adds widths as `u16`, up
/// to one more than the area's width. So the text must be narrow and the
/// area narrower than the grid. A cell that it writes gets the cluster as
/// its symbol and the block's colour as its foreground, nothing else.
///
/// Not proved: that on such text no wrapped line is wider than the area, so
/// that no cell outside `area` is touched; that no cell's background,
/// attributes or skip mark change; and that what the paragraph leaves on the
/// surface depends on the cells before and the arguments alone.
#[verifier::external_body]
pub(crate) fn draw_text(block: &TextBlock, area: Region, buf: &mut Buffer)
    requires
        area.fits(),
        area.width < u16::MAX,
        spec_narrow_text(block.text@),
        drawable(buffer_cells(*old(buf)), area),
    ensures
        buffer_cells(*final(buf)) == text_drawn(
            buffer_cells(*old(buf)),
            area,
            block.text@,
            block.color,
            block.alignment,
            block.trim,
        ),
        same_outside(buffer_cells(*old(buf)), buffer_cells(*final(buf)), area),
        same_ground(buffer_cells(*old(buf)), buffer_cells(*final(buf))),
{
    let span = block.text.clone().fg(Color::Rgb(block.color.r, block.color.g, block.color.b));
    let line = Line::from(span).alignment(match block.alignment {
        Alignment::Left => ratatui::layout::Alignment::Left,
        Alignment::Center => ratatui::layout::Alignment::Center,
        Alignment::Right => ratatui::layout::Alignment::Right,
    });
    Paragraph::new(line)
        .wrap(Wrap { trim: block.trim })
        .render(Rect { x: area.x, y: area.y, width: area.width, height: area.height }, buf);
}

/// Tells whether `area` fits the grid and the surface holds every cell of
/// it, by looking each one up.
pub fn can_draw(buf: &Buffer, area: &Region) -> (ok: bool)
    ensures
        ok == (area.fits() && drawable(buffer_cells(*buf), *area)),
{
    if area.width > u16::MAX - area.x || area.height > u16::MAX - area.y {
        return false;
    }
    let right: u16 = area.x + area.width;
    let bottom: u16 = area.y + area.height;
    let mut row: u16 = area.y;
    while row < bottom
        invariant
            area.fits(),
            right == area.right(),
            bottom == area.bottom(),
            area.y <= row <= bottom,
            forall|c: u16, r: u16|
                area.x <= c < right && area.y <= r < row ==> #[trigger] buffer_cells(
                    *buf,
                ).dom().contains((c, r)),
        decreases bottom - row,
    {
        let mut col: u16 = area.x;
        while col < right
            invariant
                right == area.right(),
                bottom == area.bottom(),
                area.y <= row < bottom,
                area.x <= col <= right,
                forall|c: u16, r: u16|
                    area.x <= c < right && area.y <= r < row ==> #[trigger] buffer_cells(
                        *buf,
                    ).dom().contains((c, r)),
                forall|c: u16|
                    area.x <= c < col ==> #[trigger] buffer_cells(*buf).dom().contains((c, row)),
            decreases right - col,
        {
            if !has_cell(buf, col, row) {
                assert(area.covers(col as int, row as int));
                return false;
            }
            col += 1;
        }
        row += 1;
    }
    true
}

} // verus!
