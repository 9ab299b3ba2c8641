//! The colour palette and its rotation over the characters of a captcha.

use crate::random::rand_num;
use vstd::prelude::*;

verus! {

/// An RGBA colour with eight bits per channel.
#[derive(Clone, Copy, Debug, PartialEq, Eq, Structural)]
pub struct Color {
    pub r: u8,
    pub g: u8,
    pub b: u8,
    pub a: u8,
}

/// Number of colours in the palette.
pub const PALETTE_LEN: usize = 14;

/// Opaque white, the colour of a fresh canvas.
pub open spec fn white() -> Color {
    Color { r: 255, g: 255, b: 255, a: 255 }
}

/// The palette, in rotation order. Every colour is opaque.
pub open spec fn palette() -> Seq<Color> {
    seq![
        Color { r: 197, g: 166, b: 3, a: 255 },
        Color { r: 187, g: 87, b: 5, a: 255 },
        Color { r: 176, g: 7, b: 7, a: 255 },
        Color { r: 186, g: 9, b: 56, a: 255 },
        Color { r: 204, g: 11, b: 143, a: 255 },
        Color { r: 124, g: 10, b: 190, a: 255 },
        Color { r: 87, g: 0, b: 200, a: 255 },
        Color { r: 61, g: 86, b: 168, a: 255 },
        Color { r: 63, g: 166, b: 126, a: 255 },
        Color { r: 69, g: 187, b: 48, a: 255 },
        Color { r: 105, g: 208, b: 3, a: 255 },
        Color { r: 160, g: 208, b: 3, a: 255 },
        Color { r: 216, g: 219, b: 2, a: 255 },
        Color { r: 50, g: 50, b: 50, a: 255 },
    ]
}

/// The colour that position `i` receives when the palette is entered at
/// `offset`: the palette is walked cyclically from there.
pub open spec fn rotated_color(offset: nat, i: int) -> Color {
    palette()[(offset + i) % PALETTE_LEN as int]
}

/// The `count` colours that follow `offset` in the palette, wrapping around
/// at its end.
pub open spec fn rotation(offset: nat, count: nat) -> Seq<Color> {
    Seq::new(count, |i: int| rotated_color(offset, i))
}

/// Whether `colors` is a rotation of the palette entered at an offset that
/// the random source can give, `0..=PALETTE_LEN`.
pub open spec fn is_rotation(colors: Seq<Color>) -> bool {
    exists|offset: nat| offset <= PALETTE_LEN && colors == #[trigger] rotation(offset, colors.len())
}

/// Opaque white.
pub fn white_color() -> (c: Color)
    ensures
        c == white(),
{
    Color { r: 255, g: 255, b: 255, a: 255 }
}

/// The palette colour at `index`.
pub fn palette_color(index: usize) -> (c: Color)
    requires
        index < PALETTE_LEN,
    ensures
        c == palette()[index as int],
{
    match index {
        0 => Color { r: 197, g: 166, b: 3, a: 255 },
        1 => Color { r: 187, g: 87, b: 5, a: 255 },
        2 => Color { r: 176, g: 7, b: 7, a: 255 },
        3 => Color { r: 186, g: 9, b: 56, a: 255 },
        4 => Color { r: 204, g: 11, b: 143, a: 255 },
        5 => Color { r: 124, g: 10, b: 190, a: 255 },
        6 => Color { r: 87, g: 0, b: 200, a: 255 },
        7 => Color { r: 61, g: 86, b: 168, a: 255 },
        8 => Color { r: 63, g: 166, b: 126, a: 255 },
        9 => Color { r: 69, g: 187, b: 48, a: 255 },
        10 => Color { r: 105, g: 208, b: 3, a: 255 },
        11 => Color { r: 160, g: 208, b: 3, a: 255 },
        12 => Color { r: 216, g: 219, b: 2, a: 255 },
        _ => Color { r: 50, g: 50, b: 50, a: 255 },
    }
}

/// The `count` palette colours that follow `offset`, wrapping around: the
/// colour at position `i` is the palette's entry `(offset + i) mod 14`.
pub fn cycle_colors(offset: usize, count: usize) -> (colors: Vec<Color>)
    ensures
        colors@ == rotation(offset as nat, count as nat),
{
    let mut colors: Vec<Color> = Vec::new();
    let mut index: usize = offset % PALETTE_LEN;
    let mut i: usize = 0;
    while i < count
        invariant
            i <= count,
            index < PALETTE_LEN,
            index == (offset + i) % PALETTE_LEN as int,
            colors@ == rotation(offset as nat, i as nat),
        decreases count - i,
    {
        colors.push(palette_color(index));
        index = (index + 1) % PALETTE_LEN;
        i += 1;
        assert(colors@ =~= rotation(offset as nat, i as nat));
    }
    colors
}

/// Picks `len` colours for a captcha: one random offset into the palette,
/// drawn from `0..=PALETTE_LEN`, then the colours that follow it cyclically.
pub fn get_colors(len: usize) -> (colors: Vec<Color>)
    ensures
        colors@.len() == len,
        is_rotation(colors@),
{
    let offset = rand_num(PALETTE_LEN);
    let colors = cycle_colors(offset, len);
    assert(colors@ == rotation(offset as nat, colors@.len()));
    colors
}

/// The palette has `PALETTE_LEN` colours, and every one of them is opaque.
pub proof fn palette_is_opaque()
    ensures
        palette().len() == PALETTE_LEN,
        forall|i: int| 0 <= i < PALETTE_LEN ==> (#[trigger] palette()[i]).a == 255,
{
}

/// Entering the palette at its length is entering it at the start: the
/// inclusive upper bound of the random offset adds no new rotation.
pub proof fn rotation_wraps(count: nat)
    ensures
        rotation(PALETTE_LEN as nat, count) == rotation(0, count),
{
    assert forall|i: int| 0 <= i < count implies #[trigger] rotated_color(PALETTE_LEN as nat, i)
        == rotated_color(0, i) by {
        assert((PALETTE_LEN + i) % PALETTE_LEN as int == i % PALETTE_LEN as int);
    }
    assert(rotation(PALETTE_LEN as nat, count) =~= rotation(0, count));
}

/// Every colour of a rotation comes from the palette.
pub proof fn rotation_stays_in_palette(offset: nat, count: nat, i: int)
    requires
        0 <= i < count,
    ensures
        palette().contains(rotation(offset, count)[i]),
{
    let k = (offset + i) % PALETTE_LEN as int;
    assert(palette()[k] == rotation(offset, count)[i]);
}

} // verus!
