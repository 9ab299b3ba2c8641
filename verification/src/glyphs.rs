//! The glyph renderer: every character of the text is drawn one to three
//! times, the repetitions shifted by a pixel or two, which thickens and
//! blurs the glyph.

use crate::alphabet::{is_alphabet_char, is_alphabet_text};
use crate::canvas::{paint_glyph, Canvas};
use crate::fonts::covers_alphabet;
use crate::layout::{Layout, MAX_REPEATS, SCALE_LG};
use crate::palette::Color;
use crate::random::rand_num;
use crate::shapes::Stamp;
use vstd::prelude::*;

verus! {

/// Draws the character at position `index` of the text one to three times
/// and returns the drawings in their order. The drawing numbered `j`, from
/// 0, is shifted by `j` pixels or not at all.
pub fn draw_character(
    image: &mut Canvas,
    font: &rusttype::Font<'static>,
    layout: &Layout,
    index: usize,
    glyph: char,
    color: Color,
) -> (stamps: Vec<Stamp>)
    requires
        old(image)@.wf(),
        is_alphabet_char(glyph),
        covers_alphabet(*font),
        index * layout.column <= old(image)@.width,
        0 < layout.scale_x <= SCALE_LG,
        0 < layout.scale_y,
    ensures
        final(image)@.same_size(old(image)@),
        layout.repeats(stamps@, index as int, glyph, color),
{
    let repeats: usize = rand_num(MAX_REPEATS - 1) + 1;
    let mut stamps: Vec<Stamp> = Vec::new();
    let mut j: usize = 0;
    while j < repeats
        invariant
            1 <= repeats <= MAX_REPEATS,
            j <= repeats,
            stamps@.len() == j,
            forall|k: int|
                0 <= k < j ==> #[trigger] stamps@[k] == layout.stamp_at(
                    index as int,
                    glyph,
                    color,
                    0,
                ) || stamps@[k] == layout.stamp_at(index as int, glyph, color, k),
            old(image)@.wf(),
            image@.same_size(old(image)@),
            is_alphabet_char(glyph),
            covers_alphabet(*font),
            index * layout.column <= old(image)@.width,
            0 < layout.scale_x <= SCALE_LG,
            0 < layout.scale_y,
        decreases repeats - j,
    {
        let shift: usize = rand_num(1);
        assert(0 <= j * shift <= 2) by (nonlinear_arith)
            requires
                0 <= j <= 2,
                0 <= shift <= 1,
        ;
        let offset: usize = j * shift;
        let stamp = layout.stamp(index, glyph, color, offset as u16);
        paint_glyph(image, font, &stamp);
        stamps.push(stamp);
        j += 1;
    }
    stamps
}

/// Draws the text, character by character, each in its own colour, and
/// returns the drawings of each character.
pub fn draw_text(
    image: &mut Canvas,
    font: &rusttype::Font<'static>,
    layout: &Layout,
    text: &str,
    colors: &Vec<Color>,
) -> (stamps: Vec<Vec<Stamp>>)
    requires
        old(image)@.wf(),
        is_alphabet_text(text@),
        covers_alphabet(*font),
        colors@.len() == text@.len(),
        layout.holds(old(image)@.width as int, text@.len() as int),
    ensures
        final(image)@.same_size(old(image)@),
        stamps@.len() == text@.len(),
        forall|i: int|
            0 <= i < text@.len() ==> layout.repeats(
                (#[trigger] stamps@[i])@,
                i,
                text@[i],
                colors@[i],
            ),
{
    let len = colors.len();
    let mut stamps: Vec<Vec<Stamp>> = Vec::new();
    let mut i: usize = 0;
    for glyph in it: text.chars()
        invariant
            i == it.index(),
            stamps@.len() == i,
            forall|k: int|
                0 <= k < i ==> layout.repeats((#[trigger] stamps@[k])@, k, text@[k], colors@[k]),
            len == text@.len(),
            it.seq() == text@,
            old(image)@.wf(),
            image@.same_size(old(image)@),
            is_alphabet_text(text@),
            covers_alphabet(*font),
            colors@.len() == text@.len(),
            layout.holds(old(image)@.width as int, text@.len() as int),
    {
        proof {
            let c = layout.column as int;
            let w = old(image)@.width as int;
            assert(i * c <= w) by (nonlinear_arith)
                requires
                    0 <= i < len,
                    c * len <= w,
                    c >= 0,
            ;
        }
        let drawn = draw_character(image, font, layout, i, glyph, colors[i]);
        stamps.push(drawn);
        i += 1;
    }
    stamps
}

} // verus!