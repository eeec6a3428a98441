//! The error overlay: where its two text blocks go, what they say, and how
//! the whole is drawn.

use vstd::prelude::*;
use ratatui::buffer::Buffer;
use crate::content::{
    confirmation_block, message_block, spec_confirmation_block, spec_confirmation_text,
    spec_message_block, Colors, Rgb, TextBlock,
};
use crate::geometry::{
    inset, lemma_inset_cells_in_container, lemma_inset_cells_off_the_edge, spec_inset, Region,
    MARGIN,
};
use crate::rows::{spec_split_rows, split_rows, Spread};
use crate::surface::{
    boxed, buffer_cells, can_draw, clear_region, cleared, draw_container, draw_text, drawable,
    same_outside, spec_border_symbol, text_drawn, Cells, Insets, Sides, Tint,
};
use crate::text::{shown_block, spec_shown_text};

verus! {

/// Rows kept for the confirmation hint at the bottom of the overlay.
pub const CONFIRMATION_ROWS: u16 = 1;

/// Share of the slack that the message takes. It is the only track that
/// takes any.
pub const MESSAGE_WEIGHT: u16 = 1;

/// Padding of the bordered box on its left and on its right.
pub const PADDING_HORIZONTAL: u16 = 2;

/// Padding of the bordered box above and below.
pub const PADDING_VERTICAL: u16 = 1;

/// The padding of the bordered box, side by side.
pub open spec fn spec_box_padding() -> Insets {
    Insets {
        left: PADDING_HORIZONTAL,
        right: PADDING_HORIZONTAL,
        top: PADDING_VERTICAL,
        bottom: PADDING_VERTICAL,
    }
}

/// The sides of the box that have a border: all four.
pub open spec fn spec_box_sides() -> Sides {
    Sides { left: true, top: true, right: true, bottom: true }
}

/// The sides that the box is drawn with.
pub fn box_sides() -> (sides: Sides)
    ensures
        sides == spec_box_sides(),
{
    Sides { left: true, top: true, right: true, bottom: true }
}

/// The padding that the bordered box is drawn with.
pub fn box_padding() -> (padding: Insets)
    ensures
        padding == spec_box_padding(),
{
    Insets {
        left: PADDING_HORIZONTAL,
        right: PADDING_HORIZONTAL,
        top: PADDING_VERTICAL,
        bottom: PADDING_VERTICAL,
    }
}

/// Where the overlay puts its two text blocks.
#[derive(Clone, Copy, Debug, PartialEq, Eq, Structural)]
pub struct ErrorPopupLayout {
    pub message_pane: Region,
    pub confirmation_pane: Region,
}

/// An error message to show over the screen, with the theme to show it in.
pub struct ErrorPopup<'a> {
    message: String,
    colors: &'a Colors,
}

/// An overlay as a plain value.
pub struct ErrorPopupView {
    pub message: Seq<char>,
    pub colors: Colors,
}

impl<'a> View for ErrorPopup<'a> {
    type V = ErrorPopupView;

    closed spec fn view(&self) -> ErrorPopupView {
        ErrorPopupView { message: self.message@, colors: *self.colors }
    }
}

/// The two panes for a target area: the area's inset, split into the
/// message pane above and the confirmation pane of one row below.
pub open spec fn spec_layout(container: Region) -> ErrorPopupLayout {
    let panes = spec_split_rows(spec_inset(container), CONFIRMATION_ROWS);
    ErrorPopupLayout { message_pane: panes.0, confirmation_pane: panes.1 }
}

/// The overlay can be drawn: its area lies on the grid and on the surface.
pub open spec fn spec_can_render(cells: Cells, size: Region) -> bool {
    size.fits() && drawable(cells, size)
}

/// The surface with the area cleared and the bordered box drawn over the
/// whole of it, before any text.
pub open spec fn spec_render_box(cells: Cells, popup: ErrorPopupView, size: Region) -> Cells {
    boxed(
        cleared(cells, size),
        size,
        spec_box_sides(),
        popup.colors.bright.black,
        popup.colors.normal.black,
    )
}

/// The surface after the overlay is drawn: the area cleared, then the
/// bordered box over the whole area, then the text shown for the message
/// in its pane, then the confirmation in its pane.
pub open spec fn spec_render(cells: Cells, popup: ErrorPopupView, size: Region) -> Cells {
    let panes = spec_layout(size);
    let message = spec_message_block(popup.message, popup.colors);
    let confirmation = spec_confirmation_block(popup.colors);
    let with_message = text_drawn(
        spec_render_box(cells, popup, size),
        panes.message_pane,
        spec_shown_text(message.text),
        message.color,
        message.alignment,
        message.trim,
    );
    text_drawn(
        with_message,
        panes.confirmation_pane,
        confirmation.text,
        confirmation.color,
        confirmation.alignment,
        confirmation.trim,
    )
}

/// `after` has the cells of `before` and differs from it inside the two
/// panes at most.
pub open spec fn same_outside_panes(before: Cells, after: Cells, panes: ErrorPopupLayout) -> bool {
    &&& after.dom() == before.dom()
    &&& forall|col: u16, row: u16|
        before.dom().contains((col, row)) && !panes.message_pane.covers(col as int, row as int)
            && !panes.confirmation_pane.covers(col as int, row as int) ==> #[trigger] after[(
            col,
            row,
        )] == before[(col, row)]
}

/// Every cell of `area` has the background `background`.
pub open spec fn painted(cells: Cells, area: Region, background: Rgb) -> bool {
    forall|col: u16, row: u16|
        cells.dom().contains((col, row)) && area.covers(col as int, row as int) ==> (
        #[trigger] cells[(col, row)]).bg == Tint::Rgb(background.r, background.g, background.b)
}

/// Every cell on the edge of `area` holds its border character in the
/// colour `border`.
pub open spec fn bordered(cells: Cells, area: Region, border: Rgb) -> bool {
    forall|col: u16, row: u16|
        cells.dom().contains((col, row)) && area.covers(col as int, row as int)
            && spec_border_symbol(area, spec_box_sides(), col as int, row as int).is_some() ==> {
            &&& (#[trigger] cells[(col, row)]).symbol == seq![
                spec_border_symbol(area, spec_box_sides(), col as int, row as int).unwrap(),
            ]
            &&& cells[(col, row)].fg == Tint::Rgb(border.r, border.g, border.b)
        }
}

impl<'a> ErrorPopup<'a> {
    /// An overlay for `message` in the theme `colors`.
    pub fn new(message: String, colors: &'a Colors) -> (popup: Self)
        ensures
            popup@.message == message@,
            popup@.colors == *colors,
    {
        ErrorPopup { message, colors }
    }

    /// The two text blocks: the message in the theme's red, and the
    /// confirmation hint in the theme's green, centred.
    pub fn build_popup(&self) -> (blocks: (TextBlock, TextBlock))
        ensures
            blocks.0@ == spec_message_block(self@.message, self@.colors),
            blocks.1@ == spec_confirmation_block(self@.colors),
            blocks.1@.text == spec_confirmation_text(),
    {
        (message_block(&self.message, self.colors), confirmation_block(self.colors))
    }

    /// The panes for the target area `size`. Neither the message nor the
    /// theme bears on them.
    pub fn layout(&self, size: &Region) -> (panes: ErrorPopupLayout)
        ensures
            panes == spec_layout(*size),
            panes.message_pane.within(spec_inset(*size)),
            panes.confirmation_pane.within(spec_inset(*size)),
            panes.message_pane.bottom() == panes.confirmation_pane.y,
            spec_inset(*size).height >= 1 ==> panes.confirmation_pane.height == 1,
    {
        let inner = inset(size);
        let (message_pane, confirmation_pane) = split_rows(
            inner,
            Spread::SpaceBetween,
            MESSAGE_WEIGHT,
            CONFIRMATION_ROWS,
        );
        ErrorPopupLayout { message_pane, confirmation_pane }
    }

    /// Draws the overlay over `size`, whatever the message: clears the
    /// area, draws the bordered box, then the text shown for the message
    /// and the confirmation hint. No cell outside `size` changes, every
    /// cell of `size` gets the background, the edge holds the border, and
    /// text changes no cell outside the two panes: what does not fit the
    /// message pane is dropped.
    pub fn render(self, size: Region, buf: &mut Buffer)
        requires
            spec_can_render(buffer_cells(*old(buf)), size),
        ensures
            buffer_cells(*final(buf)) == spec_render(buffer_cells(*old(buf)), self@, size),
            same_outside(buffer_cells(*old(buf)), buffer_cells(*final(buf)), size),
            same_outside_panes(
                spec_render_box(buffer_cells(*old(buf)), self@, size),
                buffer_cells(*final(buf)),
                spec_layout(size),
            ),
            painted(buffer_cells(*final(buf)), size, self@.colors.normal.black),
            bordered(buffer_cells(*final(buf)), size, self@.colors.bright.black),
    {
        let ghost before = buffer_cells(*buf);
        clear_region(size, buf);
        let ghost wiped = buffer_cells(*buf);
        let panes = self.layout(&size);
        let (message, confirmation) = self.build_popup();
        proof {
            lemma_panes_in_container(size);
            assert(wiped.dom() =~= before.dom());
        }
        draw_container(
            size,
            box_sides(),
            self.colors.bright.black,
            self.colors.normal.black,
            box_padding(),
            buf,
        );
        let ghost boxed = buffer_cells(*buf);
        proof {
            assert(boxed.dom() =~= wiped.dom());
        }
        let message = shown_block(&message);
        draw_text(&message, panes.message_pane, buf);
        let ghost with_message = buffer_cells(*buf);
        let confirmation = shown_block(&confirmation);
        draw_text(&confirmation, panes.confirmation_pane, buf);
        proof {
            let after = buffer_cells(*buf);
            assert forall|col: u16, row: u16|
                before.dom().contains((col, row)) && !size.covers(
                    col as int,
                    row as int,
                ) implies #[trigger] after[(col, row)] == before[(col, row)] by {
                assert(!panes.message_pane.covers(col as int, row as int));
                assert(!panes.confirmation_pane.covers(col as int, row as int));
                assert(wiped[(col, row)] == before[(col, row)]);
                assert(boxed[(col, row)] == wiped[(col, row)]);
                assert(with_message[(col, row)] == boxed[(col, row)]);
                assert(after[(col, row)] == with_message[(col, row)]);
            }
            assert forall|col: u16, row: u16|
                boxed.dom().contains((col, row)) && !panes.message_pane.covers(
                    col as int,
                    row as int,
                ) && !panes.confirmation_pane.covers(
                    col as int,
                    row as int,
                ) implies #[trigger] after[(col, row)] == boxed[(col, row)] by {
                assert(with_message[(col, row)] == boxed[(col, row)]);
                assert(after[(col, row)] == with_message[(col, row)]);
            }
            assert forall|col: u16, row: u16|
                after.dom().contains((col, row)) && size.covers(
                    col as int,
                    row as int,
                ) implies (#[trigger] after[(col, row)]).bg == Tint::Rgb(
                self@.colors.normal.black.r,
                self@.colors.normal.black.g,
                self@.colors.normal.black.b,
            ) by {
                assert(with_message[(col, row)].bg == boxed[(col, row)].bg);
                assert(after[(col, row)].bg == with_message[(col, row)].bg);
            }
            assert forall|col: u16, row: u16|
                after.dom().contains((col, row)) && size.covers(col as int, row as int)
                    && spec_border_symbol(size, spec_box_sides(), col as int, row as int).is_some() implies {
                &&& (#[trigger] after[(col, row)]).symbol == seq![
                    spec_border_symbol(size, spec_box_sides(), col as int, row as int).unwrap(),
                ]
                &&& after[(col, row)].fg == Tint::Rgb(
                    self@.colors.bright.black.r,
                    self@.colors.bright.black.g,
                    self@.colors.bright.black.b,
                )
            } by {
                if spec_inset(size).covers(col as int, row as int) {
                    lemma_inset_cells_off_the_edge(size, col as int, row as int);
                }
                assert(!panes.message_pane.covers(col as int, row as int));
                assert(!panes.confirmation_pane.covers(col as int, row as int));
                assert(after[(col, row)] == boxed[(col, row)]);
            }
        }
    }

    /// Draws the overlay where `size` lies on the surface, and tells
    /// whether it did. Where it does not, the surface stays as it was.
    pub fn try_render(self, size: Region, buf: &mut Buffer) -> (drawn: bool)
        ensures
            drawn == spec_can_render(buffer_cells(*old(buf)), size),
            drawn ==> buffer_cells(*final(buf)) == spec_render(
                buffer_cells(*old(buf)),
                self@,
                size,
            ),
            drawn ==> same_outside(buffer_cells(*old(buf)), buffer_cells(*final(buf)), size),
            drawn ==> same_outside_panes(
                spec_render_box(buffer_cells(*old(buf)), self@, size),
                buffer_cells(*final(buf)),
                spec_layout(size),
            ),
            drawn ==> painted(buffer_cells(*final(buf)), size, self@.colors.normal.black),
            drawn ==> bordered(buffer_cells(*final(buf)), size, self@.colors.bright.black),
            !drawn ==> buffer_cells(*final(buf)) == buffer_cells(*old(buf)),
    {
        if !can_draw(buf, &size) {
            return false;
        }
        self.render(size, buf);
        true
    }
}

/// Every cell of either pane is a cell of the target area, and each pane
/// is narrower than the grid.
pub proof fn lemma_panes_in_container(container: Region)
    ensures
        spec_layout(container).message_pane.fits(),
        spec_layout(container).confirmation_pane.fits(),
        spec_layout(container).message_pane.width < u16::MAX,
        spec_layout(container).confirmation_pane.width < u16::MAX,
        forall|col: int, row: int| #[trigger]
            spec_layout(container).message_pane.covers(col, row) ==> container.covers(col, row),
        forall|col: int, row: int| #[trigger]
            spec_layout(container).confirmation_pane.covers(col, row) ==> container.covers(
                col,
                row,
            ),
        forall|col: int, row: int| #[trigger]
            spec_layout(container).message_pane.covers(col, row) ==> spec_inset(
                container,
            ).covers(col, row),
        forall|col: int, row: int| #[trigger]
            spec_layout(container).confirmation_pane.covers(col, row) ==> spec_inset(
                container,
            ).covers(col, row),
{
    assert forall|col: int, row: int| #[trigger]
        spec_layout(container).message_pane.covers(col, row) implies container.covers(
        col,
        row,
    ) by {
        assert(spec_inset(container).covers(col, row));
        lemma_inset_cells_in_container(container, col, row);
    }
    assert forall|col: int, row: int| #[trigger]
        spec_layout(container).confirmation_pane.covers(col, row) implies container.covers(
        col,
        row,
    ) by {
        assert(spec_inset(container).covers(col, row));
        lemma_inset_cells_in_container(container, col, row);
    }
}

/// Both panes lie inside the inset of the target area: the area with the
/// margin taken off each side, its extents stopping at zero. The inset's
/// corner is the area's moved by the margin, or the inset is empty where
/// the grid has no such corner.
pub proof fn lemma_layout_contained(container: Region)
    ensures
        container.x + MARGIN <= u16::MAX ==> spec_inset(container).x == container.x + MARGIN,
        container.y + MARGIN <= u16::MAX ==> spec_inset(container).y == container.y + MARGIN,
        container.x + MARGIN > u16::MAX ==> spec_inset(container).width == 0,
        container.y + MARGIN > u16::MAX ==> spec_inset(container).height == 0,
        spec_inset(container).width <= container.width,
        spec_inset(container).height <= container.height,
        spec_layout(container).message_pane.within(spec_inset(container)),
        spec_layout(container).confirmation_pane.within(spec_inset(container)),
{
}

/// The message pane ends where the confirmation pane begins, so the two
/// share no cell, and the confirmation pane has exactly one row wherever
/// the inset has a row at all.
pub proof fn lemma_layout_stacked(container: Region)
    ensures
        spec_layout(container).message_pane.bottom() <= spec_layout(container).confirmation_pane.y,
        spec_inset(container).height >= 1 ==> spec_layout(container).confirmation_pane.height
            == 1,
        forall|col: int, row: int|
            !(#[trigger] spec_layout(container).message_pane.covers(col, row) && spec_layout(
                container,
            ).confirmation_pane.covers(col, row)),
{
}

/// A target area narrower or lower than twice the margin leaves both panes
/// without a cell; one that is both leaves them without width and without
/// height.
pub proof fn lemma_layout_degenerate(container: Region)
    requires
        container.width < 2 * MARGIN || container.height < 2 * MARGIN,
    ensures
        spec_layout(container).message_pane.is_empty(),
        spec_layout(container).confirmation_pane.is_empty(),
        container.width < 2 * MARGIN ==> spec_layout(container).message_pane.width == 0
            && spec_layout(container).confirmation_pane.width == 0,
        container.height < 2 * MARGIN ==> spec_layout(container).message_pane.height == 0
            && spec_layout(container).confirmation_pane.height == 0,
{
}

/// Two layouts of one target area are the same, whatever overlay they were
/// made for.
pub proof fn lemma_layout_repeatable(
    first: ErrorPopupLayout,
    second: ErrorPopupLayout,
    container: Region,
)
    requires
        first == spec_layout(container),
        second == spec_layout(container),
    ensures
        first == second,
{
}

/// The confirmation hint reads `(O)k` under every message and every theme.
pub proof fn lemma_confirmation_text_fixed(first: ErrorPopupView, second: ErrorPopupView)
    ensures
        spec_confirmation_block(first.colors).text == seq!['(', 'O', ')', 'k'],
        spec_confirmation_block(first.colors).text == spec_confirmation_block(
            second.colors,
        ).text,
{
}

/// What was on the target area before the draw does not show through: two
/// surfaces that differ inside the area at most are the same after it.
pub proof fn lemma_render_forgets_area(
    first: Cells,
    second: Cells,
    popup: ErrorPopupView,
    size: Region,
)
    requires
        same_outside(first, second, size),
    ensures
        spec_render(first, popup, size) == spec_render(second, popup, size),
{
    assert(cleared(first, size) =~= cleared(second, size));
}

} // verus!
