//! The captcha builder: a configuration, changed by chained setters, that
//! is consumed by one build.

use crate::alphabet::{is_alphabet_text, rand_captcha};
use crate::canvas::{encode_buffer, supported_dimensions, Canvas, Raster};
use crate::fonts::Fonts;
use crate::format::{has_signature, parse_format, ImageFormat};
use crate::glyphs::draw_text;
use crate::interference::{draw_interference, planned_discs, planned_strokes};
use crate::layout::{random_layout, Layout};
use crate::noise::{add_noise, clamp, clamp_complexity, MAX_COMPLEXITY, MIN_COMPLEXITY};
use crate::palette::{get_colors, is_rotation, white, Color};
use crate::shapes::{all_placed, all_sweep, Disc, Stamp, Stroke};
use crate::random::rand_num;
use vstd::pervasive::unreached;
use vstd::prelude::*;
use vstd::string::StrSliceExecFns;

verus! {

/// A finished captcha: the text to be recognised and the encoded image
/// that shows it.
pub struct Captcha {
    pub text: String,
    pub image: Vec<u8>,
}

/// Why a build produced no captcha.
#[derive(Clone, Copy, Debug, PartialEq, Eq, Structural)]
pub enum CaptchaError {
    /// The encoder of the chosen container reported a failure.
    Encoding,
}

/// The settings of a captcha.
#[derive(Clone, Copy, Debug, PartialEq, Eq, Structural)]
pub struct CaptchaConfig {
    pub length: usize,
    pub width: u32,
    pub height: u32,
    pub complexity: usize,
    pub line: bool,
    pub noise: bool,
    pub circle: bool,
    pub format: ImageFormat,
}

/// What a drawing pass decided and put on the canvas.
#[derive(Debug)]
pub struct Rendering {
    /// The strokes painted, in the order of the characters.
    pub strokes: Vec<Stroke>,
    /// The discs painted, in the order of the characters.
    pub discs: Vec<Disc>,
    /// The drawings of each character, in their order.
    pub stamps: Vec<Vec<Stamp>>,
    /// The typeface of the characters: 0 for the first, 1 for the second.
    pub typeface: usize,
    /// The placement of the characters; an empty text has none.
    pub layout: Option<Layout>,
    /// The colour of each character.
    pub glyph_colors: Vec<Color>,
    /// The colour of each character's interference shapes.
    pub shape_colors: Vec<Color>,
}

impl CaptchaConfig {
    /// The settings a new builder starts with.
    pub open spec fn initial() -> CaptchaConfig {
        CaptchaConfig {
            length: 4,
            width: 220,
            height: 70,
            complexity: 5,
            line: true,
            noise: false,
            circle: true,
            format: ImageFormat::Png,
        }
    }

    /// The complexity lies in 1 to 10 and the canvas size is supported.
    pub open spec fn wf(self) -> bool {
        &&& MIN_COMPLEXITY <= self.complexity <= MAX_COMPLEXITY
        &&& supported_dimensions(self.width as int, self.height as int)
    }

    /// The number of discs that a drawing pass with these settings paints
    /// for a text of `len` characters.
    pub open spec fn disc_count(self, len: int) -> int {
        planned_discs(len, self.circle)
    }

    /// The number of strokes that a drawing pass with these settings, and
    /// with lines as given, paints for a text of `len` characters.
    pub open spec fn stroke_count(self, len: int, lines: bool) -> int {
        planned_strokes(len, lines, self.circle)
    }
}

/// Builds captchas. Its settings are changed only by its setters, which
/// keep them well-formed.
pub struct CaptchaBuilder {
    config: CaptchaConfig,
}

impl View for CaptchaBuilder {
    type V = CaptchaConfig;

    closed spec fn view(&self) -> CaptchaConfig {
        self.config
    }
}

impl Default for CaptchaBuilder {
    fn default() -> (builder: CaptchaBuilder)
        ensures
            builder@ == CaptchaConfig::initial(),
    {
        CaptchaBuilder {
            config: CaptchaConfig {
                length: 4,
                width: 220,
                height: 70,
                complexity: 5,
                line: true,
                noise: false,
                circle: true,
                format: ImageFormat::Png,
            },
        }
    }
}

impl Captcha {
    /// Makes the captcha of a text and the outcome of encoding its image:
    /// the text with the encoded bytes, or the error that stands for the
    /// encoder's failure.
    pub fn from_encoding(text: String, encoded: Result<Vec<u8>, image::ImageError>) -> (result:
        Result<Captcha, CaptchaError>)
        ensures
            match encoded {
                Ok(bytes) => result matches Ok(captcha) && captcha.text == text && captcha.image
                    == bytes,
                Err(_) => result == Err::<Captcha, CaptchaError>(CaptchaError::Encoding),
            },
    {
        match encoded {
            Ok(bytes) => Ok(Captcha { text, image: bytes }),
            Err(_) => Err(CaptchaError::Encoding),
        }
    }
}

impl CaptchaBuilder {
    #[verifier::type_invariant]
    closed spec fn inv(self) -> bool {
        self.config.wf()
    }

    /// A builder with the initial settings.
    pub fn new() -> (builder: CaptchaBuilder)
        ensures
            builder@ == CaptchaConfig::initial(),
    {
        CaptchaBuilder::default()
    }

    /// The current settings. They are well-formed in every builder.
    pub fn config(&self) -> (config: CaptchaConfig)
        ensures
            config == self@,
            config.wf(),
    {
        proof {
            use_type_invariant(self);
        }
        self.config
    }

    /// Sets the number of characters of the text.
    pub fn length(self, length: usize) -> (builder: CaptchaBuilder)
        ensures
            builder@ == (CaptchaConfig { length, ..self@ }),
    {
        proof {
            use_type_invariant(&self);
        }
        CaptchaBuilder { config: CaptchaConfig { length, ..self.config } }
    }

    /// Sets whether strokes are painted.
    pub fn line(self, line: bool) -> (builder: CaptchaBuilder)
        ensures
            builder@ == (CaptchaConfig { line, ..self@ }),
    {
        proof {
            use_type_invariant(&self);
        }
        CaptchaBuilder { config: CaptchaConfig { line, ..self.config } }
    }

    /// Sets whether the image is grained with noise.
    pub fn noise(self, noise: bool) -> (builder: CaptchaBuilder)
        ensures
            builder@ == (CaptchaConfig { noise, ..self@ }),
    {
        proof {
            use_type_invariant(&self);
        }
        CaptchaBuilder { config: CaptchaConfig { noise, ..self.config } }
    }

    /// Sets whether interference is painted at all.
    pub fn circle(self, circle: bool) -> (builder: CaptchaBuilder)
        ensures
            builder@ == (CaptchaConfig { circle, ..self@ }),
    {
        proof {
            use_type_invariant(&self);
        }
        CaptchaBuilder { config: CaptchaConfig { circle, ..self.config } }
    }

    /// Sets the container by its name. An unknown name selects PNG.
    pub fn format(self, format: &str) -> (builder: CaptchaBuilder)
        ensures
            builder@ == (CaptchaConfig { format: parse_format(format@), ..self@ }),
    {
        proof {
            use_type_invariant(&self);
        }
        let format = ImageFormat::from_name(format);
        CaptchaBuilder { config: CaptchaConfig { format, ..self.config } }
    }

    /// Sets the complexity, clamped into 1 to 10.
    pub fn complexity(self, complexity: usize) -> (builder: CaptchaBuilder)
        ensures
            builder@ == (CaptchaConfig {
                complexity: clamp_complexity(complexity as int) as usize,
                ..self@
            }),
            MIN_COMPLEXITY <= builder@.complexity <= MAX_COMPLEXITY,
    {
        proof {
            use_type_invariant(&self);
        }
        CaptchaBuilder { config: CaptchaConfig { complexity: clamp(complexity), ..self.config } }
    }

    /// Draws the text on the image: first the interference, as background,
    /// then the characters in one of the two typefaces, and reports what
    /// was decided and drawn. The text must be over the alphabet, which
    /// the typefaces are known to cover. An empty text leaves the image as
    /// it is.
    pub fn cyclic_write_character(
        &self,
        captcha: &str,
        image: &mut Canvas,
        lines: bool,
        fonts: &Fonts,
    ) -> (drawn: Rendering)
        requires
            old(image)@.wf(),
            is_alphabet_text(captcha@),
        ensures
            final(image)@.same_size(old(image)@),
            captcha@.len() == 0 ==> final(image)@ == old(image)@,
            drawn.strokes@.len() == self@.stroke_count(captcha@.len() as int, lines),
            drawn.discs@.len() == self@.disc_count(captcha@.len() as int),
            all_sweep(drawn.strokes@, old(image)@.width as int, old(image)@.height as int),
            all_placed(drawn.discs@, old(image)@.width as int, old(image)@.height as int),
            drawn.typeface <= 1,
            drawn.stamps@.len() == captcha@.len(),
            match drawn.layout {
                Some(layout) => {
                    &&& captcha@.len() > 0
                    &&& layout.arranged(
                        old(image)@.width as int,
                        old(image)@.height as int,
                        captcha@.len() as int,
                    )
                    &&& forall|i: int|
                        0 <= i < captcha@.len() ==> layout.repeats(
                            (#[trigger] drawn.stamps@[i])@,
                            i,
                            captcha@[i],
                            drawn.glyph_colors@[i],
                        )
                },
                None => captcha@.len() == 0,
            },
            drawn.glyph_colors@.len() == captcha@.len(),
            is_rotation(drawn.glyph_colors@),
            drawn.shape_colors@.len() == captcha@.len(),
            is_rotation(drawn.shape_colors@),
    {
        let len = captcha.unicode_len();
        let colors = get_colors(len);
        let line_colors = get_colors(len);
        if len == 0 {
            return Rendering {
                strokes: Vec::new(),
                discs: Vec::new(),
                stamps: Vec::new(),
                typeface: 0,
                layout: None,
                glyph_colors: colors,
                shape_colors: line_colors,
            };
        }
        let layout = random_layout(image.width(), image.height(), len);
        let shapes = draw_interference(image, &line_colors, lines, self.config.circle);
        let typeface = rand_num(1);
        let stamps = draw_text(image, fonts.pick(typeface), &layout, captcha, &colors);
        Rendering {
            strokes: shapes.strokes,
            discs: shapes.discs,
            stamps,
            typeface,
            layout: Some(layout),
            glyph_colors: colors,
            shape_colors: line_colors,
        }
    }

    /// Builds the captcha: a random text, drawn on a white canvas over its
    /// interference, grained with noise if enabled, and encoded into the
    /// chosen container. It fails exactly when the encoder does.
    pub fn build(self, fonts: &Fonts) -> (result: Result<Captcha, CaptchaError>)
        ensures
            result matches Ok(captcha) ==> {
                &&& captcha.text@.len() == self@.length
                &&& is_alphabet_text(captcha.text@)
                &&& has_signature(captcha.image@, self@.format)
                &&& captcha.image@.len() > 0
            },
            self@.encodes_to(
                match result {
                    Ok(captcha) => Some(captcha.image@),
                    Err(_) => None,
                },
            ),
    {
        proof {
            use_type_invariant(&self);
        }
        let text = rand_captcha(self.config.length);
        let mut buf = match Canvas::new(self.config.width, self.config.height) {
            Some(canvas) => canvas,
            None => unreached(),
        };
        self.cyclic_write_character(text.as_str(), &mut buf, self.config.line, fonts);
        if self.config.noise {
            add_noise(&mut buf, self.config.complexity);
        }
        let encoded = encode_buffer(&buf, self.config.format);
        assert(self@.draws(buf@));
        Captcha::from_encoding(text, encoded)
    }
}

impl CaptchaConfig {
    /// Whether `drawn` is a canvas that a build with these settings can
    /// hand to the encoder: it has the configured size, and it is white
    /// all over where the text is empty and noise is off.
    pub open spec fn draws(self, drawn: Raster) -> bool {
        &&& drawn.wf()
        &&& drawn.width == self.width
        &&& drawn.height == self.height
        &&& self.length == 0 && !self.noise ==> drawn == Raster::filled(
            self.width as nat,
            self.height as nat,
            white(),
        )
    }

    /// Whether `image` is the outcome of a build with these settings: what
    /// the encoder of the configured format makes of a canvas that the
    /// build can draw, `None` standing for the encoder's failure.
    pub open spec fn encodes_to(self, image: Option<Seq<u8>>) -> bool {
        exists|drawn: Raster| #[trigger] self.draws(drawn) && drawn.encoded(self.format) == image
    }

    /// The settings that the arguments of `create` stand for: the initial
    /// ones but for the five that are given and the clamped complexity.
    pub open spec fn requested(
        len: usize,
        difficulty: usize,
        line: bool,
        noise: bool,
        circle: bool,
        format: Seq<char>,
    ) -> CaptchaConfig {
        CaptchaConfig {
            length: len,
            complexity: clamp_complexity(difficulty as int) as usize,
            line,
            noise,
            circle,
            format: parse_format(format),
            ..CaptchaConfig::initial()
        }
    }
}

/// Changing the line flag alone changes neither whether discs are painted
/// nor how many: a drawing pass paints one disc for every character where
/// the disc flag is set, and none where it is not, whatever else differs
/// between two configurations.
pub proof fn line_flag_keeps_discs(a: CaptchaConfig, b: CaptchaConfig, len: int)
    requires
        a.circle == b.circle,
    ensures
        a.disc_count(len) == b.disc_count(len),
        a.disc_count(len) == if a.circle {
            len
        } else {
            0
        },
{
}

/// With the disc flag cleared the line flag has no effect: a drawing pass
/// paints no interference at all.
pub proof fn no_discs_no_strokes(config: CaptchaConfig, len: int, lines: bool)
    requires
        !config.circle,
    ensures
        config.stroke_count(len, lines) == 0,
        config.disc_count(len) == 0,
{
}

} // verus!
