//! Interference: random strokes and discs painted behind the text so that
//! its characters cannot be cut apart by projection.

use crate::canvas::{paint_disc, paint_stroke, supported_dimensions, Canvas};
use crate::palette::Color;
use crate::random::get_next;
use crate::shapes::{
    all_placed, all_sweep, Disc, Point, Stroke, DISC_BOTTOM_BAND, DISC_MAX_RADIUS,
    DISC_MIN_RADIUS, DISC_RIGHT_BAND, STROKE_MARGIN,
};
use vstd::prelude::*;

verus! {

/// Draws a stroke that sweeps a canvas of the given size from its left
/// margin to its right margin.
pub fn random_stroke(width: u32, height: u32) -> (stroke: Stroke)
    requires
        supported_dimensions(width as int, height as int),
    ensures
        stroke.sweeps(width as int, height as int),
{
    let low: u32 = height - STROKE_MARGIN;
    let start_y = get_next(STROKE_MARGIN, height / 2);
    let end_y = get_next(STROKE_MARGIN, low);
    let a_x = get_next(width / 6, 3 * width / 4);
    let a_y = get_next(STROKE_MARGIN, low);
    let b_x = get_next(width / 12, width / 4);
    let b_y = get_next(STROKE_MARGIN, low);
    Stroke {
        start: Point { x: STROKE_MARGIN as u16, y: start_y as u16 },
        end: Point { x: (width - STROKE_MARGIN) as u16, y: end_y as u16 },
        control_a: Point { x: a_x as u16, y: a_y as u16 },
        control_b: Point { x: b_x as u16, y: b_y as u16 },
    }
}

/// Draws a disc that interference may place on a canvas of the given size.
pub fn random_disc(width: u32, height: u32) -> (disc: Disc)
    requires
        supported_dimensions(width as int, height as int),
    ensures
        disc.placed_on(width as int, height as int),
{
    let radius = get_next(DISC_MIN_RADIUS, DISC_MAX_RADIUS);
    let x = get_next(0, width - DISC_RIGHT_BAND);
    let y = get_next(0, height - DISC_BOTTOM_BAND);
    Disc { center: Point { x: x as u16, y: y as u16 }, radius: radius as u16 }
}

/// Paints `num` random strokes on the image, all in one colour, and
/// returns them in their order. Every stroke sweeps the image, and nothing
/// but the colour is added to it.
pub fn draw_interference_line(num: usize, image: &mut Canvas, color: Color) -> (strokes: Vec<
    Stroke,
>)
    requires
        old(image)@.wf(),
    ensures
        final(image)@.painted_from(old(image)@, color),
        num == 0 ==> final(image)@ == old(image)@,
        strokes@.len() == num,
        all_sweep(strokes@, old(image)@.width as int, old(image)@.height as int),
{
    let mut strokes: Vec<Stroke> = Vec::new();
    let mut i: usize = 0;
    while i < num
        invariant
            i <= num,
            old(image)@.wf(),
            image@.painted_from(old(image)@, color),
            i == 0 ==> image@ == old(image)@,
            strokes@.len() == i,
            all_sweep(strokes@, old(image)@.width as int, old(image)@.height as int),
        decreases num - i,
    {
        let stroke = random_stroke(image.width(), image.height());
        paint_stroke(image, &stroke, color);
        strokes.push(stroke);
        i += 1;
    }
    strokes
}

/// Paints `num` random discs on the image, all in one colour, and returns
/// them in their order. Every disc is placed on the image, nothing but the
/// colour is added to it, and once a disc is painted the colour shows on it.
pub fn draw_interference_ellipse(num: usize, image: &mut Canvas, color: Color) -> (discs: Vec<
    Disc,
>)
    requires
        old(image)@.wf(),
    ensures
        final(image)@.painted_from(old(image)@, color),
        num == 0 ==> final(image)@ == old(image)@,
        num > 0 ==> final(image)@.shows(color),
        discs@.len() == num,
        all_placed(discs@, old(image)@.width as int, old(image)@.height as int),
{
    let mut discs: Vec<Disc> = Vec::new();
    let mut i: usize = 0;
    while i < num
        invariant
            i <= num,
            old(image)@.wf(),
            image@.painted_from(old(image)@, color),
            i == 0 ==> image@ == old(image)@,
            i > 0 ==> image@.shows(color),
            discs@.len() == i,
            all_placed(discs@, old(image)@.width as int, old(image)@.height as int),
        decreases num - i,
    {
        let disc = random_disc(image.width(), image.height());
        paint_disc(image, &disc, color);
        proof {
            let x = disc.center.x as int;
            let y = disc.center.y as int;
            let w = image@.width as int;
            let h = image@.height as int;
            assert(0 <= y * w + x < w * h) by (nonlinear_arith)
                requires
                    0 <= x < w,
                    0 <= y < h,
            ;
            assert(image@.pixels[y * w + x] == color);
        }
        discs.push(disc);
        i += 1;
    }
    discs
}

/// The shapes that an interference pass painted, each kind in the order
/// of the characters.
#[derive(Debug)]
pub struct Interference {
    pub strokes: Vec<Stroke>,
    pub discs: Vec<Disc>,
}

/// The number of discs that interference paints for a text of `len`
/// characters: one for every character where discs are enabled.
pub open spec fn planned_discs(len: int, circle: bool) -> int {
    if circle {
        len
    } else {
        0
    }
}

/// The number of strokes that interference paints for a text of `len`
/// characters: one for every character where lines and discs are both
/// enabled. With discs disabled no stroke is painted, whatever the line
/// flag says.
pub open spec fn planned_strokes(len: int, lines: bool, circle: bool) -> int {
    if circle && lines {
        len
    } else {
        0
    }
}

/// Paints the interference for a text with one colour for each of its
/// characters: for every character its stroke, if lines are enabled, then
/// its disc, both in the character's colour; nothing at all if discs are
/// disabled. Every stroke sweeps the image and every disc is placed on it,
/// and nothing but those colours is added to the image.
pub fn draw_interference(image: &mut Canvas, colors: &Vec<Color>, lines: bool, circle: bool) -> (drawn:
    Interference)
    requires
        old(image)@.wf(),
    ensures
        final(image)@.painted_among(old(image)@, colors@),
        drawn.strokes@.len() == planned_strokes(colors@.len() as int, lines, circle),
        drawn.discs@.len() == planned_discs(colors@.len() as int, circle),
        all_sweep(drawn.strokes@, old(image)@.width as int, old(image)@.height as int),
        all_placed(drawn.discs@, old(image)@.width as int, old(image)@.height as int),
        drawn.discs@.len() == 0 ==> final(image)@ == old(image)@,
        drawn.discs@.len() > 0 ==> final(image)@.shows(colors@.last()),
{
    let mut strokes: Vec<Stroke> = Vec::new();
    let mut discs: Vec<Disc> = Vec::new();
    if !circle {
        return Interference { strokes, discs };
    }
    let len = colors.len();
    let mut i: usize = 0;
    while i < len
        invariant
            i <= len,
            len == colors@.len(),
            circle,
            old(image)@.wf(),
            image@.painted_among(old(image)@, colors@),
            strokes@.len() == planned_strokes(i as int, lines, circle),
            discs@.len() == planned_discs(i as int, circle),
            all_sweep(strokes@, old(image)@.width as int, old(image)@.height as int),
            all_placed(discs@, old(image)@.width as int, old(image)@.height as int),
            i == 0 ==> image@ == old(image)@,
            i > 0 ==> image@.shows(colors@[i - 1]),
        decreases len - i,
    {
        let color = colors[i];
        if lines {
            let mut painted = draw_interference_line(1, image, color);
            strokes.append(&mut painted);
        }
        let mut painted = draw_interference_ellipse(1, image, color);
        discs.append(&mut painted);
        i += 1;
    }
    Interference { strokes, discs }
}

} // verus!
