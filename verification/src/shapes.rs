//! What is put on a canvas: the interference shapes, which are cubic
//! Bezier strokes and filled discs, and the drawings of characters.

use crate::palette::Color;
use vstd::prelude::*;

verus! {

/// A pixel position on a canvas.
#[derive(Clone, Copy, Debug, PartialEq, Eq, Structural)]
pub struct Point {
    pub x: u16,
    pub y: u16,
}

/// A cubic Bezier curve from `start` to `end`, bent by two control points.
#[derive(Clone, Copy, Debug, PartialEq, Eq, Structural)]
pub struct Stroke {
    pub start: Point,
    pub end: Point,
    pub control_a: Point,
    pub control_b: Point,
}

/// A filled ellipse with both radii equal.
#[derive(Clone, Copy, Debug, PartialEq, Eq, Structural)]
pub struct Disc {
    pub center: Point,
    pub radius: u16,
}

/// One drawing of a character: where its glyph goes, how large it is, and
/// in which colour.
#[derive(Clone, Copy, Debug, PartialEq, Eq, Structural)]
pub struct Stamp {
    pub glyph: char,
    pub x: i16,
    pub y: i16,
    pub scale_x: u16,
    pub scale_y: u16,
    pub color: Color,
}

/// Distance that strokes keep from the canvas edges.
pub const STROKE_MARGIN: u32 = 5;

/// Smallest radius of an interference disc.
pub const DISC_MIN_RADIUS: u32 = 10;

/// Largest radius of an interference disc.
pub const DISC_MAX_RADIUS: u32 = 19;

/// Width of the band at the right edge that holds no disc centre.
pub const DISC_RIGHT_BAND: u32 = 25;

/// Height of the band at the bottom edge that holds no disc centre.
pub const DISC_BOTTOM_BAND: u32 = 15;

impl Stroke {
    /// Whether the stroke sweeps a canvas of the given size from left to
    /// right: it starts at the left margin in the upper half, ends at the
    /// right margin, and its control points lie in the bands that bend it.
    pub open spec fn sweeps(self, width: int, height: int) -> bool {
        &&& self.start.x == STROKE_MARGIN
        &&& STROKE_MARGIN <= self.start.y <= height / 2
        &&& self.end.x == width - STROKE_MARGIN
        &&& STROKE_MARGIN <= self.end.y <= height - STROKE_MARGIN
        &&& width / 6 <= self.control_a.x <= 3 * width / 4
        &&& STROKE_MARGIN <= self.control_a.y <= height - STROKE_MARGIN
        &&& width / 12 <= self.control_b.x <= width / 4
        &&& STROKE_MARGIN <= self.control_b.y <= height - STROKE_MARGIN
    }
}

impl Disc {
    /// Whether the disc is one that interference may place on a canvas of
    /// the given size: a radius of 10 to 19 pixels, and a centre that keeps
    /// clear of the right and bottom bands.
    pub open spec fn placed_on(self, width: int, height: int) -> bool {
        &&& DISC_MIN_RADIUS <= self.radius <= DISC_MAX_RADIUS
        &&& 0 <= self.center.x <= width - DISC_RIGHT_BAND
        &&& 0 <= self.center.y <= height - DISC_BOTTOM_BAND
    }
}

/// Whether every stroke sweeps a canvas of the given size.
pub open spec fn all_sweep(strokes: Seq<Stroke>, width: int, height: int) -> bool {
    forall|k: int| 0 <= k < strokes.len() ==> (#[trigger] strokes[k]).sweeps(width, height)
}

/// Whether every disc is placed on a canvas of the given size.
pub open spec fn all_placed(discs: Seq<Disc>, width: int, height: int) -> bool {
    forall|k: int| 0 <= k < discs.len() ==> (#[trigger] discs[k]).placed_on(width, height)
}

} // verus!
