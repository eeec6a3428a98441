//! How a text is measured before it is drawn: its grapheme clusters, the
//! columns that each takes, and the text that is shown in its place where
//! a cluster takes none or more than one.

use vstd::prelude::*;
use unicode_segmentation::UnicodeSegmentation;
use unicode_width::UnicodeWidthStr;
use crate::content::{is_plain_text, spec_plain_char, spec_plain_text, TextBlock, TextBlockView};

verus! {

/// The extended grapheme clusters of a text, in order.
pub uninterp spec fn text_graphemes(text: Seq<char>) -> Seq<Seq<char>>;

/// The columns of the grid that a grapheme cluster takes.
pub uninterp spec fn grapheme_columns(grapheme: Seq<char>) -> nat;

/// A cluster that the word wrap can place: it takes one column, or it is a
/// line feed, which is left out before the wrap.
pub open spec fn spec_narrow(grapheme: Seq<char>) -> bool {
    grapheme == seq!['\n'] || grapheme_columns(grapheme) == 1
}

/// Text of narrow clusters only. Such text is wrapped into lines that are
/// never wider than the region they are wrapped for.
pub open spec fn spec_narrow_text(text: Seq<char>) -> bool {
    forall|i: int|
        0 <= i < text_graphemes(text).len() ==> spec_narrow(#[trigger] text_graphemes(text)[i])
}

/// The character shown for a cluster of a text that is not narrow: the
/// cluster itself where it is one plain character, else a question mark.
pub open spec fn spec_stand_in(grapheme: Seq<char>) -> char {
    if grapheme.len() == 1 && spec_plain_char(grapheme[0]) {
        grapheme[0]
    } else {
        '?'
    }
}

/// A text cluster by cluster, each by its stand-in.
pub open spec fn spec_plain_copy(text: Seq<char>) -> Seq<char> {
    text_graphemes(text).map_values(|grapheme: Seq<char>| spec_stand_in(grapheme))
}

/// The text that is drawn for `text`: the text itself where it is narrow,
/// else its plain copy.
pub open spec fn spec_shown_text(text: Seq<char>) -> Seq<char> {
    if spec_narrow_text(text) {
        text
    } else {
        spec_plain_copy(text)
    }
}

/// The block that is drawn for `block`: the same but for its text, which
/// is the text shown for it.
pub open spec fn spec_shown_block(block: TextBlockView) -> TextBlockView {
    TextBlockView {
        text: spec_shown_text(block.text),
        color: block.color,
        alignment: block.alignment,
        trim: block.trim,
    }
}

/// Calls `unicode_segmentation::UnicodeSegmentation::graphemes` for the
/// extended grapheme clusters of `text` and copies each into a string.
///
/// Not proved: that a printable ASCII character and a line feed each stand
/// alone in a text that holds nothing else. The segmenter gives the first
/// the category of any other character and the second that of a control,
/// and breaks between two of these.
#[verifier::external_body]
fn split_graphemes(text: &str) -> (parts: Vec<String>)
    ensures
        parts@.len() == text_graphemes(text@).len(),
        forall|i: int|
            0 <= i < parts@.len() ==> (#[trigger] parts@[i])@ == text_graphemes(text@)[i],
        spec_plain_text(text@) ==> parts@.len() == text@.len(),
        spec_plain_text(text@) ==> forall|i: int|
            0 <= i < parts@.len() ==> (#[trigger] parts@[i])@ == seq![text@[i]],
{
    text.graphemes(true).map(String::from).collect()
}

/// Calls `unicode_width::UnicodeWidthStr::width` on one grapheme cluster.
///
/// Not proved: that a printable ASCII character alone takes one column.
#[verifier::external_body]
fn columns(grapheme: &str) -> (n: usize)
    ensures
        n == grapheme_columns(grapheme@),
        grapheme@.len() == 1 && ' ' <= grapheme@[0] <= '~' ==> n == 1,
{
    grapheme.width()
}

/// Tells whether `grapheme` is one line feed.
fn is_line_feed(grapheme: &str) -> (yes: bool)
    ensures
        yes == (grapheme@ == seq!['\n']),
{
    if grapheme.unicode_len() != 1 {
        return false;
    }
    let c = grapheme.get_char(0);
    assert(c == '\n' ==> grapheme@ =~= seq!['\n']);
    c == '\n'
}

/// Tells whether every cluster of `text` is narrow. Plain text always is.
pub fn is_narrow_text(text: &str) -> (ok: bool)
    ensures
        ok == spec_narrow_text(text@),
        spec_plain_text(text@) ==> ok,
{
    let parts = split_graphemes(text);
    let mut i: usize = 0;
    while i < parts.len()
        invariant
            i <= parts@.len(),
            parts@.len() == text_graphemes(text@).len(),
            forall|j: int|
                0 <= j < parts@.len() ==> (#[trigger] parts@[j])@ == text_graphemes(text@)[j],
            spec_plain_text(text@) ==> parts@.len() == text@.len(),
            spec_plain_text(text@) ==> forall|j: int|
                0 <= j < parts@.len() ==> (#[trigger] parts@[j])@ == seq![text@[j]],
            forall|j: int| 0 <= j < i ==> spec_narrow(#[trigger] text_graphemes(text@)[j]),
        decreases parts@.len() - i,
    {
        let part = parts[i].as_str();
        assert(part@ == text_graphemes(text@)[i as int]);
        if !is_line_feed(part) && columns(part) != 1 {
            proof {
                if spec_plain_text(text@) {
                    assert(part@ == seq![text@[i as int]]);
                    assert(spec_plain_char(text@[i as int]));
                    assert(part@[0] == text@[i as int]);
                }
            }
            return false;
        }
        i += 1;
    }
    true
}

/// Copies `text` cluster by cluster, each by its stand-in. The copy is
/// plain text.
pub fn plain_copy(text: &str) -> (copy: String)
    ensures
        copy@ == spec_plain_copy(text@),
        spec_plain_text(copy@),
{
    let parts = split_graphemes(text);
    let mut copy = String::new();
    let mut i: usize = 0;
    proof {
        reveal_strlit("?");
    }
    while i < parts.len()
        invariant
            i <= parts@.len(),
            parts@.len() == text_graphemes(text@).len(),
            forall|j: int|
                0 <= j < parts@.len() ==> (#[trigger] parts@[j])@ == text_graphemes(text@)[j],
            copy@.len() == i,
            forall|j: int|
                0 <= j < i ==> #[trigger] copy@[j] == spec_stand_in(text_graphemes(text@)[j]),
            "?"@ =~= seq!['?'],
        decreases parts@.len() - i,
    {
        let part = parts[i].as_str();
        assert(part@ == text_graphemes(text@)[i as int]);
        let ghost before = copy@;
        if part.unicode_len() == 1 && is_plain_text(part) {
            copy.append(part);
            assert(part@ =~= seq![part@[0]]);
        } else {
            copy.append("?");
        }
        assert(copy@ =~= before.push(spec_stand_in(part@)));
        i += 1;
    }
    assert(copy@ =~= spec_plain_copy(text@));
    copy
}

/// The text to draw for `text`: the text itself where every cluster is
/// narrow, as all plain text is, else its plain copy. What comes back is
/// narrow.
pub fn shown_text(text: &str) -> (shown: String)
    ensures
        shown@ == spec_shown_text(text@),
        spec_narrow_text(shown@),
        spec_plain_text(text@) ==> shown@ == text@,
{
    if is_narrow_text(text) {
        text.to_owned()
    } else {
        let copy = plain_copy(text);
        // The copy is measured as any text is; being plain, it is narrow.
        let narrow = is_narrow_text(copy.as_str());
        assert(narrow);
        copy
    }
}

/// The block to draw for `block`: the same with the text shown for its
/// text. A block of plain text comes back as it is.
pub fn shown_block(block: &TextBlock) -> (shown: TextBlock)
    ensures
        shown@ == spec_shown_block(block@),
        spec_narrow_text(shown@.text),
        spec_plain_text(block@.text) ==> shown@ == block@,
{
    TextBlock {
        text: shown_text(block.text.as_str()),
        color: block.color,
        alignment: block.alignment,
        trim: block.trim,
    }
}

} // verus!
