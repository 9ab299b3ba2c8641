//! Procedural captcha images: a short random string drawn as glyphs over
//! interference shapes, optionally grained with noise, and encoded.
//!
//! The builder in `captcha` runs the stages in a fixed order: `alphabet`
//! draws the text, `interference` paints strokes and discs on a white
//! `canvas`, `glyphs` sets the text according to its `layout` in one of the
//! two `fonts`, `noise` grains the result, and the canvas is encoded in the
//! chosen `format`.

use crate::alphabet::is_alphabet_text;
use crate::captcha::{CaptchaBuilder, CaptchaConfig, CaptchaError};
use crate::fonts::Fonts;
use crate::format::{has_signature, parse_format};
use vstd::prelude::*;

pub mod alphabet;
pub mod canvas;
pub mod captcha;
pub mod fonts;
pub mod format;
pub mod glyphs;
pub mod interference;
pub mod layout;
pub mod noise;
pub mod palette;
pub mod random;
pub mod shapes;
pub mod std_text;

verus! {

/// Generates one captcha on the standard canvas of 220 by 70 pixels: the
/// text, and the image encoded in the container that `format` names.
pub fn create(
    len: usize,
    difficulty: usize,
    line: bool,
    noise: bool,
    circle: bool,
    format: String,
    fonts: &Fonts,
) -> (out: Result<(String, Vec<u8>), CaptchaError>)
    ensures
        out matches Ok((text, image)) ==> {
            &&& text@.len() == len
            &&& is_alphabet_text(text@)
            &&& has_signature(image@, parse_format(format@))
            &&& image@.len() > 0
        },
        CaptchaConfig::requested(len, difficulty, line, noise, circle, format@).encodes_to(
            match out {
                Ok((_, image)) => Some(image@),
                Err(_) => None,
            },
        ),
{
    let c = CaptchaBuilder::new();
    let built = c.complexity(difficulty).length(len).line(line).noise(noise).circle(circle).format(
        format.as_str(),
    ).build(fonts);
    match built {
        Ok(out) => Ok((out.text, out.image)),
        Err(e) => Err(e),
    }
}

} // verus!
