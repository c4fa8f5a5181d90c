//! Drawing output of one display pass, as plain data.
//!
//! The host's rendering primitives (filled rectangles, positioned coloured
//! text, symbol glyphs) are stateless pass-through calls; a display pass here
//! produces the ordered list of calls it wants made, and the boundary glue
//! replays them against the host. Screen coordinates are whole pixels and
//! colours are packed RGBA words, exactly what the host primitives take.

use vstd::prelude::*;

verus! {

/// One rendering primitive call, in the order the host should make them.
pub enum DrawCmd {
    /// A filled rectangle.
    Rect { x: u32, y: u32, w: u32, h: u32, color: u32 },
    /// Sets the text writer's colour for the calls that follow.
    SetColor { color: u32 },
    /// Sets the text writer's position for the calls that follow.
    SetPos { x: u32, y: u32 },
    /// Prints a run of symbol glyphs by their glyph codes.
    Symbol { glyphs: Vec<u16> },
    /// Prints plain text at the writer's position.
    Text { text: String },
    /// Draws a menu heading line.
    Heading { text: String },
    /// Draws one menu entry; `selected` marks the cursor highlight.
    Entry { index: u32, selected: bool, text: String },
}

/// What one drawn menu entry must look like: its position in the list, its
/// label, and the highlight exactly on the cursor's entry.
pub open spec fn entry_ok(c: DrawCmd, i: int, label: Seq<char>, cursor: u32) -> bool {
    &&& c matches DrawCmd::Entry { index, selected, text }
    &&& index == i as u32
    &&& selected == (i == cursor as int)
    &&& text@ == label
}

/// What a drawn list must look like: the heading first, then every entry in
/// order with the highlight on the cursor's entry.
pub open spec fn menu_list_ok(
    s: Seq<DrawCmd>,
    heading: Seq<char>,
    labels: Seq<Seq<char>>,
    cursor: u32,
) -> bool {
    &&& s.len() == 1 + labels.len()
    &&& (s[0] matches DrawCmd::Heading { text } && text@ == heading)
    &&& forall|i: int| 0 <= i < labels.len() ==> entry_ok(#[trigger] s[i + 1], i, labels[i], cursor)
}

} // verus!
