//! The palette that the overlay reads and the text blocks that it shows.

use vstd::prelude::*;

verus! {

/// A colour by its red, green and blue parts.
#[derive(Clone, Copy, Debug, PartialEq, Eq, Structural)]
pub struct Rgb {
    pub r: u8,
    pub g: u8,
    pub b: u8,
}

/// One row of a theme: the colours that the overlay takes from it.
#[derive(Clone, Copy, Debug, PartialEq, Eq, Structural)]
pub struct Palette {
    pub black: Rgb,
    pub red: Rgb,
    pub green: Rgb,
}

/// A colour theme: a normal and a bright palette.
#[derive(Clone, Copy, Debug, PartialEq, Eq, Structural)]
pub struct Colors {
    pub normal: Palette,
    pub bright: Palette,
}

/// Where a line of text sits in the width of its region.
#[derive(Clone, Copy, Debug, PartialEq, Eq, Structural)]
pub enum Alignment {
    Left,
    Center,
    Right,
}

/// A block of text in one colour, wrapped at word boundaries to the width
/// of the region it is drawn into.
#[derive(Debug, PartialEq, Eq)]
pub struct TextBlock {
    pub text: String,
    pub color: Rgb,
    pub alignment: Alignment,
    /// Whether the white space at which a line is wrapped is dropped.
    pub trim: bool,
}

/// A text block as a plain value.
pub struct TextBlockView {
    pub text: Seq<char>,
    pub color: Rgb,
    pub alignment: Alignment,
    pub trim: bool,
}

impl View for TextBlock {
    type V = TextBlockView;

    open spec fn view(&self) -> TextBlockView {
        TextBlockView {
            text: self.text@,
            color: self.color,
            alignment: self.alignment,
            trim: self.trim,
        }
    }
}

/// A character that takes one column of the grid and stands alone in it: a
/// printable ASCII character. A line feed counts too: it takes no column,
/// as it is left out of what is drawn.
pub open spec fn spec_plain_char(c: char) -> bool {
    (' ' <= c <= '~') || c == '\n'
}

/// Text made of plain characters only. Such text is wrapped into lines that
/// are never wider than the region they are wrapped for.
pub open spec fn spec_plain_text(text: Seq<char>) -> bool {
    forall|i: int| 0 <= i < text.len() ==> spec_plain_char(#[trigger] text[i])
}

/// Tells whether `text` is made of plain characters only.
pub fn is_plain_text(text: &str) -> (plain: bool)
    ensures
        plain == spec_plain_text(text@),
{
    if !text.is_ascii() {
        return false;
    }
    proof {
        vstd::string::is_ascii_spec_bytes(text);
    }
    let bytes = text.as_bytes();
    let mut i: usize = 0;
    while i < bytes.len()
        invariant
            i <= bytes@.len(),
            bytes@.len() == text@.len(),
            forall|j: int| 0 <= j < text@.len() ==> '\0' <= #[trigger] text@[j] <= '\u{7f}',
            forall|j: int| 0 <= j < text@.len() ==> bytes@[j] == #[trigger] text@[j] as u8,
            forall|j: int| 0 <= j < i ==> spec_plain_char(#[trigger] text@[j]),
        decreases bytes@.len() - i,
    {
        let byte: u8 = bytes[i];
        if !((0x20 <= byte && byte <= 0x7e) || byte == 0x0a) {
            assert(!spec_plain_char(text@[i as int]));
            return false;
        }
        assert(spec_plain_char(text@[i as int]));
        i += 1;
    }
    true
}

/// The hint under the message: the key that dismisses the overlay.
pub open spec fn spec_confirmation_text() -> Seq<char> {
    seq!['(', 'O', ')', 'k']
}

/// The message in the theme's normal red, from the left edge, wrapped and
/// trimmed.
pub open spec fn spec_message_block(message: Seq<char>, colors: Colors) -> TextBlockView {
    TextBlockView { text: message, color: colors.normal.red, alignment: Alignment::Left, trim: true }
}

/// The hint in the theme's normal green, centred, wrapped and trimmed.
pub open spec fn spec_confirmation_block(colors: Colors) -> TextBlockView {
    TextBlockView {
        text: spec_confirmation_text(),
        color: colors.normal.green,
        alignment: Alignment::Center,
        trim: true,
    }
}

/// Builds the message block for `message` under the theme `colors`.
pub fn message_block(message: &String, colors: &Colors) -> (block: TextBlock)
    ensures
        block@ == spec_message_block(message@, *colors),
{
    TextBlock {
        text: message.clone(),
        color: colors.normal.red,
        alignment: Alignment::Left,
        trim: true,
    }
}

/// Builds the confirmation block under the theme `colors`.
pub fn confirmation_block(colors: &Colors) -> (block: TextBlock)
    ensures
        block@ == spec_confirmation_block(*colors),
        spec_plain_text(block@.text),
{
    let text = "(O)k".to_owned();
    proof {
        reveal_strlit("(O)k");
        assert(text@ =~= spec_confirmation_text());
    }
    TextBlock { text, color: colors.normal.green, alignment: Alignment::Center, trim: true }
}

} // verus!
