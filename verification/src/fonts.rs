//! The two typefaces of a captcha, parsed by `rusttype` and checked to
//! cover the alphabet: to draw each of its glyphs without a fault.

use crate::alphabet::{alphabet, alphabet_char, alphabet_len, is_alphabet_char, ALPHABET_LEN};
use owned_ttf_parser::AsFaceRef;
use rusttype::IntoGlyphId;
use vstd::prelude::*;

verus! {

/// A parsed typeface.
///
/// Trusted: declares the outside type `rusttype::Font`. A font is opaque to
/// proofs; what they know of one are the functions below.
#[verifier::external_type_specification]
#[verifier::external_body]
pub struct ExFont<'a>(rusttype::Font<'a>);

/// What `Font::try_from_vec` makes of the bytes of a font file.
pub uninterp spec fn parsed_font(data: Seq<u8>) -> Option<rusttype::Font<'static>>;

/// The number of glyphs of the font.
pub uninterp spec fn glyph_count(font: rusttype::Font<'static>) -> nat;

/// The number of the glyph that the font draws for a character.
pub uninterp spec fn glyph_index(font: rusttype::Font<'static>, c: char) -> u16;

/// The horizontal advance that the font records for a glyph, if any.
pub uninterp spec fn glyph_advance(font: rusttype::Font<'static>, glyph: u16) -> Option<u16>;

/// The left side bearing that the font records for a glyph, if any.
pub uninterp spec fn glyph_side_bearing(font: rusttype::Font<'static>, glyph: u16) -> Option<i16>;

/// The height of the font's ascent line above the baseline, in font units.
pub uninterp spec fn font_ascender(font: rusttype::Font<'static>) -> i16;

/// The height of the font's descent line above the baseline, in font
/// units; it lies below the baseline where this is negative.
pub uninterp spec fn font_descender(font: rusttype::Font<'static>) -> i16;

/// The box around the outline of a glyph, in font units, if the glyph has
/// an outline.
pub uninterp spec fn glyph_bounds(font: rusttype::Font<'static>, glyph: u16) -> Option<Bounds>;

/// The box around the outline of a glyph, in font units.
#[derive(Clone, Copy, Debug, PartialEq, Eq, Structural)]
pub struct Bounds {
    pub x_min: i16,
    pub y_min: i16,
    pub x_max: i16,
    pub y_max: i16,
}

/// How many line heights an outline may reach from the glyph's origin.
pub const GLYPH_REACH: i32 = 4;

/// The distance from the font's descent line to its ascent line, which a
/// scale maps to that many pixels.
pub open spec fn line_height(font: rusttype::Font<'static>) -> int {
    font_ascender(font) - font_descender(font)
}

/// Whether the font's baseline lies between its descent and ascent lines,
/// and these two apart: every scale then is a finite factor on font units.
pub open spec fn has_line(font: rusttype::Font<'static>) -> bool {
    font_descender(font) <= 0 <= font_ascender(font) && line_height(font) > 0
}

/// Whether a coordinate of an outline lies within reach of the origin for
/// a line of the given height, and can be negated as an `i16`.
pub open spec fn in_reach(v: int, height: int) -> bool {
    i16::MIN < v && -GLYPH_REACH * height <= v <= GLYPH_REACH * height
}

/// Whether the outline of a glyph, where it has one, lies within reach of
/// the origin. Drawn at a scale, such a glyph stays within four times the
/// scale of its origin in every direction.
pub open spec fn outline_in_reach(font: rusttype::Font<'static>, glyph: u16) -> bool {
    glyph_bounds(font, glyph) matches Some(bounds) ==> {
        &&& in_reach(bounds.x_min as int, line_height(font))
        &&& in_reach(bounds.y_min as int, line_height(font))
        &&& in_reach(bounds.x_max as int, line_height(font))
        &&& in_reach(bounds.y_max as int, line_height(font))
    }
}

/// Whether the font can lay out and draw the character: the font has a
/// line, and the character's glyph exists, has horizontal metrics, and has
/// an outline within reach. Text layout fails, or works on numbers without
/// bound, on any other character.
pub open spec fn renders(font: rusttype::Font<'static>, c: char) -> bool {
    let glyph = glyph_index(font, c);
    &&& has_line(font)
    &&& glyph < glyph_count(font)
    &&& glyph_advance(font, glyph) is Some
    &&& glyph_side_bearing(font, glyph) is Some
    &&& outline_in_reach(font, glyph)
}

/// Whether the font can draw every glyph of the alphabet.
pub open spec fn covers_alphabet(font: rusttype::Font<'static>) -> bool {
    forall|c: char| is_alphabet_char(c) ==> renders(font, c)
}

/// Whether the bytes are a font file that parses and covers the alphabet.
pub open spec fn is_typeface(data: Seq<u8>) -> bool {
    parsed_font(data) matches Some(font) && covers_alphabet(font)
}

/// Trusted: calls `Font::try_from_vec`, which returns `None` for data that
/// is no font. The contract names the result: parsing depends on the bytes
/// alone.
#[verifier::external_body]
fn parse_font(data: Vec<u8>) -> (font: Option<rusttype::Font<'static>>)
    ensures
        font == parsed_font(data@),
{
    rusttype::Font::try_from_vec(data)
}

/// Trusted: calls `Font::glyph_count`.
#[verifier::external_body]
fn font_glyph_count(font: &rusttype::Font<'static>) -> (count: usize)
    ensures
        count == glyph_count(*font),
{
    font.glyph_count()
}

/// Trusted: calls `IntoGlyphId::into_glyph_id` for a character, the lookup
/// that text layout starts with: the glyph that the font's character map
/// gives, or glyph 0 where it gives none.
#[verifier::external_body]
fn font_glyph_index(font: &rusttype::Font<'static>, c: char) -> (glyph: u16)
    ensures
        glyph == glyph_index(*font, c),
{
    c.into_glyph_id(font).0
}

/// Trusted: calls `Face::glyph_hor_advance` on the face inside the font,
/// the call whose result text layout unwraps.
#[verifier::external_body]
fn font_glyph_advance(font: &rusttype::Font<'static>, glyph: u16) -> (advance: Option<u16>)
    ensures
        advance == glyph_advance(*font, glyph),
{
    match font {
        rusttype::Font::Ref(face) => face.glyph_hor_advance(owned_ttf_parser::GlyphId(glyph)),
        rusttype::Font::Owned(face) => face.as_face_ref().glyph_hor_advance(
            owned_ttf_parser::GlyphId(glyph),
        ),
    }
}

/// Trusted: calls `Face::glyph_hor_side_bearing` on the face inside the
/// font, the other call whose result text layout unwraps.
#[verifier::external_body]
fn font_glyph_side_bearing(font: &rusttype::Font<'static>, glyph: u16) -> (bearing: Option<i16>)
    ensures
        bearing == glyph_side_bearing(*font, glyph),
{
    match font {
        rusttype::Font::Ref(face) => face.glyph_hor_side_bearing(owned_ttf_parser::GlyphId(glyph)),
        rusttype::Font::Owned(face) => face.as_face_ref().glyph_hor_side_bearing(
            owned_ttf_parser::GlyphId(glyph),
        ),
    }
}

/// Trusted: calls `Face::ascender` on the face inside the font, the call
/// from which a scale's factor on font units is computed.
#[verifier::external_body]
fn font_ascent(font: &rusttype::Font<'static>) -> (ascender: i16)
    ensures
        ascender == font_ascender(*font),
{
    match font {
        rusttype::Font::Ref(face) => face.ascender(),
        rusttype::Font::Owned(face) => face.as_face_ref().ascender(),
    }
}

/// Trusted: calls `Face::descender` on the face inside the font, the other
/// call from which a scale's factor on font units is computed.
#[verifier::external_body]
fn font_descent(font: &rusttype::Font<'static>) -> (descender: i16)
    ensures
        descender == font_descender(*font),
{
    match font {
        rusttype::Font::Ref(face) => face.descender(),
        rusttype::Font::Owned(face) => face.as_face_ref().descender(),
    }
}

/// Trusted: calls `Face::glyph_bounding_box` on the face inside the font,
/// the call from which the size of a glyph's raster is computed, and
/// carries the four fields of its result over.
#[verifier::external_body]
fn font_glyph_bounds(font: &rusttype::Font<'static>, glyph: u16) -> (bounds: Option<Bounds>)
    ensures
        bounds == glyph_bounds(*font, glyph),
{
    let found = match font {
        rusttype::Font::Ref(face) => face.glyph_bounding_box(owned_ttf_parser::GlyphId(glyph)),
        rusttype::Font::Owned(face) => face.as_face_ref().glyph_bounding_box(
            owned_ttf_parser::GlyphId(glyph),
        ),
    };
    found.map(|b| Bounds { x_min: b.x_min, y_min: b.y_min, x_max: b.x_max, y_max: b.y_max })
}

/// Whether a coordinate lies within reach for a line of the given height.
fn reaches(v: i16, height: i32) -> (ok: bool)
    requires
        0 < height <= 0xffff,
    ensures
        ok == in_reach(v as int, height as int),
{
    let reach: i32 = GLYPH_REACH * height;
    v > i16::MIN && -reach <= v as i32 && v as i32 <= reach
}

/// Whether the font can lay out and draw the character.
pub fn can_render(font: &rusttype::Font<'static>, c: char) -> (ok: bool)
    ensures
        ok == renders(*font, c),
{
    let ascender = font_ascent(font);
    let descender = font_descent(font);
    if descender > 0 || ascender < 0 || ascender == descender {
        return false;
    }
    let height: i32 = ascender as i32 - descender as i32;
    let glyph = font_glyph_index(font, c);
    if glyph as usize >= font_glyph_count(font) {
        return false;
    }
    if font_glyph_advance(font, glyph).is_none() || font_glyph_side_bearing(font, glyph).is_none() {
        return false;
    }
    match font_glyph_bounds(font, glyph) {
        Some(bounds) => reaches(bounds.x_min, height) && reaches(bounds.y_min, height) && reaches(
            bounds.x_max,
            height,
        ) && reaches(bounds.y_max, height),
        None => true,
    }
}

/// Whether the font can draw every glyph of the alphabet.
pub fn can_render_alphabet(font: &rusttype::Font<'static>) -> (ok: bool)
    ensures
        ok == covers_alphabet(*font),
{
    proof {
        alphabet_len();
    }
    let mut i: usize = 0;
    while i < ALPHABET_LEN
        invariant
            i <= ALPHABET_LEN,
            alphabet().len() == ALPHABET_LEN,
            forall|j: int| 0 <= j < i ==> renders(*font, #[trigger] alphabet()[j]),
        decreases ALPHABET_LEN - i,
    {
        let c = alphabet_char(i);
        if !can_render(font, c) {
            return false;
        }
        i += 1;
    }
    assert forall|c: char| is_alphabet_char(c) implies renders(*font, c) by {
        let j = choose|j: int| 0 <= j < alphabet().len() && alphabet()[j] == c;
        assert(renders(*font, alphabet()[j]));
    }
    true
}

/// The two typefaces that captchas are set in. Both draw every glyph of
/// the alphabet.
pub struct Fonts {
    first: rusttype::Font<'static>,
    second: rusttype::Font<'static>,
}

impl Fonts {
    #[verifier::type_invariant]
    closed spec fn inv(self) -> bool {
        covers_alphabet(self.first) && covers_alphabet(self.second)
    }

    /// The first typeface.
    pub closed spec fn first(self) -> rusttype::Font<'static> {
        self.first
    }

    /// The second typeface.
    pub closed spec fn second(self) -> rusttype::Font<'static> {
        self.second
    }

    /// The typeface that a pick selects: pick 0 the first, any other pick
    /// the second.
    pub open spec fn choice(self, pick: int) -> rusttype::Font<'static> {
        if pick == 0 {
            self.first()
        } else {
            self.second()
        }
    }

    /// Parses the bytes of two font files. There are typefaces exactly when
    /// both files parse and both fonts cover the alphabet.
    pub fn from_bytes(first: Vec<u8>, second: Vec<u8>) -> (fonts: Option<Fonts>)
        ensures
            fonts is Some <==> is_typeface(first@) && is_typeface(second@),
            fonts matches Some(pair) ==> parsed_font(first@) == Some(pair.first()) && parsed_font(
                second@,
            ) == Some(pair.second()),
    {
        let first = match parse_font(first) {
            Some(font) => font,
            None => {
                return None;
            },
        };
        let second = match parse_font(second) {
            Some(font) => font,
            None => {
                return None;
            },
        };
        if can_render_alphabet(&first) && can_render_alphabet(&second) {
            Some(Fonts { first, second })
        } else {
            None
        }
    }

    /// The typeface that a pick selects.
    pub fn pick(&self, pick: usize) -> (font: &rusttype::Font<'static>)
        ensures
            *font == self.choice(pick as int),
            covers_alphabet(*font),
    {
        proof {
            use_type_invariant(self);
        }
        if pick == 0 {
            &self.first
        } else {
            &self.second
        }
    }
}

} // verus!
