//! Where the characters of a captcha go and how large they are drawn.

use crate::canvas::{supported_dimensions, MAX_DIMENSION};
use crate::palette::Color;
use crate::random::rand_num;
use crate::shapes::Stamp;
use vstd::prelude::*;

verus! {

/// Base scale of texts of six or more characters.
pub const SCALE_SM: u32 = 32;

/// Base scale of texts of four or five characters.
pub const SCALE_MD: u32 = 45;

/// Base scale of texts of one to three characters.
pub const SCALE_LG: u32 = 55;

/// Horizontal space kept free on each side of the text.
pub const TEXT_MARGIN: u32 = 10;

/// The part of a scale that jitter may take away: one fifth.
pub const JITTER_DIVISOR: u32 = 5;

/// Most drawings of one character.
pub const MAX_REPEATS: usize = 3;

/// Most pixels by which a repeated drawing of a character is shifted.
pub const MAX_SHIFT: u16 = 2;

/// The base scale for a text of `len` characters: the shorter the text,
/// the larger its glyphs.
pub open spec fn base_scale(len: int) -> int {
    if 1 <= len <= 3 {
        SCALE_LG as int
    } else if 4 <= len <= 5 {
        SCALE_MD as int
    } else {
        SCALE_SM as int
    }
}

/// The width of the column that each of `len` characters gets on a canvas
/// of the given width.
pub open spec fn column_width(width: int, len: int) -> int {
    (width - 2 * TEXT_MARGIN) / len
}

/// The vertical position at which text is drawn on a canvas of the given
/// height. It is negative on canvases lower than 45 pixels.
pub open spec fn baseline(height: int) -> int {
    height / 3 - 15
}

/// The placement of a text: the column width, the vertical position, and
/// the scale of its glyphs.
#[derive(Clone, Copy, Debug, PartialEq, Eq, Structural)]
pub struct Layout {
    pub column: u32,
    pub baseline: i16,
    pub scale_x: u16,
    pub scale_y: u16,
}

impl Layout {
    /// The layout of a text of `len` characters on a canvas of the given
    /// size, with the horizontal scale reduced by `shrink_x` and the
    /// vertical scale, which starts at the canvas height, by `shrink_y`.
    pub open spec fn of(width: int, height: int, len: int, shrink_x: int, shrink_y: int) -> Layout {
        Layout {
            column: column_width(width, len) as u32,
            baseline: baseline(height) as i16,
            scale_x: (base_scale(len) - shrink_x) as u16,
            scale_y: (height - shrink_y) as u16,
        }
    }

    /// Whether this is a layout that jitter can give for a text of `len`
    /// characters on a canvas of the given size: neither scale is reduced
    /// by more than a fifth.
    pub open spec fn arranged(self, width: int, height: int, len: int) -> bool {
        exists|shrink_x: int, shrink_y: int|
            0 <= shrink_x <= base_scale(len) / JITTER_DIVISOR as int && 0 <= shrink_y <= height
                / JITTER_DIVISOR as int && self == #[trigger] Layout::of(
                width,
                height,
                len,
                shrink_x,
                shrink_y,
            )
    }

    /// The drawing of the character at position `index` that is shifted by
    /// `offset` pixels: the shift moves the glyph right and widens it by as
    /// much.
    pub open spec fn stamp_at(self, index: int, glyph: char, color: Color, offset: int) -> Stamp {
        Stamp {
            glyph,
            x: (TEXT_MARGIN + offset + index * self.column) as i16,
            y: self.baseline,
            scale_x: (self.scale_x + offset) as u16,
            scale_y: self.scale_y,
            color,
        }
    }

    /// Whether `stamps` are the drawings of the character at position
    /// `index`: one to three of them, and the one numbered `j`, from 0,
    /// shifted by `j` pixels or not at all.
    pub open spec fn repeats(self, stamps: Seq<Stamp>, index: int, glyph: char, color: Color) -> bool {
        &&& 1 <= stamps.len() <= MAX_REPEATS
        &&& forall|j: int|
            0 <= j < stamps.len() ==> #[trigger] stamps[j] == self.stamp_at(index, glyph, color, 0)
                || stamps[j] == self.stamp_at(index, glyph, color, j)
    }

    /// Whether the layout leaves every character of a text of `len`
    /// characters on a canvas of the given width.
    pub open spec fn holds(self, width: int, len: int) -> bool {
        &&& self.column * len <= width
        &&& 0 < self.scale_x <= SCALE_LG
        &&& 0 < self.scale_y
    }

    /// Computes the layout for a text of `len` characters.
    pub fn new(width: u32, height: u32, len: usize, shrink_x: u32, shrink_y: u32) -> (layout:
        Layout)
        requires
            supported_dimensions(width as int, height as int),
            len >= 1,
            shrink_x <= base_scale(len as int) / JITTER_DIVISOR as int,
            shrink_y <= height / JITTER_DIVISOR,
        ensures
            layout == Layout::of(
                width as int,
                height as int,
                len as int,
                shrink_x as int,
                shrink_y as int,
            ),
            layout.holds(width as int, len as int),
    {
        let span: usize = (width - 2 * TEXT_MARGIN) as usize;
        let column: usize = span / len;
        let base = scale_for(len);
        proof {
            let c = column as int;
            let l = len as int;
            assert(c * l <= span) by (nonlinear_arith)
                requires
                    c == span as int / l,
                    l >= 1,
                    span >= 0,
            ;
            assert(c <= span) by (nonlinear_arith)
                requires
                    c * l <= span,
                    l >= 1,
                    c >= 0,
            ;
        }
        Layout {
            column: column as u32,
            baseline: (height / 3) as i16 - 15,
            scale_x: (base - shrink_x) as u16,
            scale_y: (height - shrink_y) as u16,
        }
    }

    /// Builds the drawing of the character at position `index`, shifted by
    /// `offset` pixels.
    pub fn stamp(&self, index: usize, glyph: char, color: Color, offset: u16) -> (stamp: Stamp)
        requires
            index * self.column <= MAX_DIMENSION,
            offset <= MAX_SHIFT,
            self.scale_x <= SCALE_LG,
        ensures
            stamp == self.stamp_at(index as int, glyph, color, offset as int),
            stamp.x == TEXT_MARGIN + offset + index * self.column,
            stamp.scale_x == self.scale_x + offset,
    {
        let column = self.column as usize;
        let shift: usize = index * column;
        Stamp {
            glyph,
            x: (TEXT_MARGIN as usize + offset as usize + shift) as i16,
            y: self.baseline,
            scale_x: self.scale_x + offset,
            scale_y: self.scale_y,
            color,
        }
    }
}

/// A layout that jitter can give keeps the column width and the vertical
/// position that the canvas and the text fix, and each of its scales within
/// a fifth below its largest value: the base scale of the text
/// horizontally, the canvas height vertically.
pub proof fn arranged_within_a_fifth(layout: Layout, width: int, height: int, len: int)
    requires
        supported_dimensions(width, height),
        len >= 1,
        layout.arranged(width, height, len),
    ensures
        layout.column == column_width(width, len),
        layout.baseline == baseline(height),
        base_scale(len) - base_scale(len) / 5 <= layout.scale_x <= base_scale(len),
        height - height / 5 <= layout.scale_y <= height,
{
    let (shrink_x, shrink_y) = choose|shrink_x: int, shrink_y: int|
        0 <= shrink_x <= base_scale(len) / JITTER_DIVISOR as int && 0 <= shrink_y <= height
            / JITTER_DIVISOR as int && layout == #[trigger] Layout::of(
            width,
            height,
            len,
            shrink_x,
            shrink_y,
        );
    let span = width - 2 * TEXT_MARGIN;
    assert(0 <= span / len <= span) by (nonlinear_arith)
        requires
            span >= 0,
            len >= 1,
    ;
}

/// The base scale for a text of `len` characters.
pub fn scale_for(len: usize) -> (scale: u32)
    ensures
        scale == base_scale(len as int),
{
    if 1 <= len && len <= 3 {
        SCALE_LG
    } else if 4 <= len && len <= 5 {
        SCALE_MD
    } else {
        SCALE_SM
    }
}

/// Lays a text of `len` characters out on a canvas of the given size, with
/// each scale reduced by a random amount of at most a fifth.
pub fn random_layout(width: u32, height: u32, len: usize) -> (layout: Layout)
    requires
        supported_dimensions(width as int, height as int),
        len >= 1,
    ensures
        layout.arranged(width as int, height as int, len as int),
        layout.holds(width as int, len as int),
{
    let base = scale_for(len);
    let shrink_x = rand_num((base / JITTER_DIVISOR) as usize) as u32;
    let shrink_y = rand_num((height / JITTER_DIVISOR) as usize) as u32;
    Layout::new(width, height, len, shrink_x, shrink_y)
}

} // verus!
