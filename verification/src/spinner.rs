//! The progress indicator: a label followed by a glyph that rotates.

use vstd::prelude::*;
use crate::message::join3;
use crate::text::texts;

verus! {

/// The number of glyphs in one rotation.
pub const GLYPH_COUNT: usize = 4;

/// How long one frame stays on screen, in milliseconds.
pub const FRAME_DELAY_MILLIS: u64 = 100;

/// The glyph shown at the given step of the rotation: `-`, `/`, `|`, `\`, and
/// round again.
pub open spec fn glyph(step: int) -> Seq<char> {
    let position = step % 4;
    if position == 0 {
        "-"@
    } else if position == 1 {
        "/"@
    } else if position == 2 {
        "|"@
    } else {
        "\\"@
    }
}

/// One frame of the indicator: a carriage return, the label, a space and the
/// glyph. There is no line break, so that the next frame overwrites this one.
pub open spec fn frame(label: Seq<char>, glyph: Seq<char>) -> Seq<char> {
    "\r"@ + label + " "@ + glyph
}

/// The frames of one full rotation, in the order in which they are shown.
pub open spec fn cycle(label: Seq<char>) -> Seq<Seq<char>> {
    Seq::new(GLYPH_COUNT as nat, |step: int| frame(label, glyph(step)))
}

/// The glyph shown at the given step of the rotation.
pub fn glyph_text(step: usize) -> (text: &'static str)
    ensures
        text@ == glyph(step as int),
{
    let position: usize = step % 4;
    if position == 0 {
        "-"
    } else if position == 1 {
        "/"
    } else if position == 2 {
        "|"
    } else {
        "\\"
    }
}

/// One frame of the indicator.
pub fn frame_line(label: &str, glyph: &str) -> (line: String)
    ensures
        line@ == frame(label@, glyph@),
{
    let mut line = join3("\r", label, " ");
    line.append(glyph);
    line
}

/// The frames of one full rotation, in the order in which they are shown.
pub fn cycle_lines(label: &str) -> (lines: Vec<String>)
    ensures
        texts(lines@) == cycle(label@),
{
    let mut lines: Vec<String> = Vec::new();
    let mut step: usize = 0;
    while step < GLYPH_COUNT
        invariant
            step <= GLYPH_COUNT,
            lines@.len() == step,
            forall|i: int| 0 <= i < step ==> (#[trigger] lines@[i])@ == frame(label@, glyph(i)),
        decreases GLYPH_COUNT - step,
    {
        lines.push(frame_line(label, glyph_text(step)));
        step += 1;
    }
    assert(texts(lines@) =~= cycle(label@));
    lines
}

} // verus!
