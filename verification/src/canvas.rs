//! The canvas: a grid of RGBA pixels held by the `image` crate, and what
//! the drawing, noise and encoding routines of `image` and `imageproc` do
//! to it.

use crate::fonts::renders;
use crate::format::{has_signature, ImageFormat};
use crate::palette::{white, white_color, Color};
use crate::shapes::{Disc, Stamp, Stroke};
use vstd::prelude::*;

verus! {

/// Smallest supported canvas width: narrower canvases leave no room to
/// place a disc.
pub const MIN_WIDTH: u32 = 25;

/// Smallest supported canvas height.
pub const MIN_HEIGHT: u32 = 15;

/// Largest supported width or height: the largest that all three
/// containers can hold.
pub const MAX_DIMENSION: u32 = 16384;

/// Whether a canvas of this size can carry a captcha.
pub open spec fn supported_dimensions(width: int, height: int) -> bool {
    MIN_WIDTH <= width <= MAX_DIMENSION && MIN_HEIGHT <= height <= MAX_DIMENSION
}

/// The mathematical content of a canvas: its size and its pixels, row by
/// row from the top, each row from the left.
pub struct Raster {
    pub width: nat,
    pub height: nat,
    pub pixels: Seq<Color>,
}

impl Raster {
    /// A supported size, and one pixel for every position.
    pub open spec fn wf(self) -> bool {
        &&& supported_dimensions(self.width as int, self.height as int)
        &&& self.pixels.len() == self.width * self.height
    }

    /// Whether `(x, y)` is a position of the raster.
    pub open spec fn contains(self, x: int, y: int) -> bool {
        0 <= x < self.width && 0 <= y < self.height
    }

    /// The pixel at column `x` of row `y`.
    pub open spec fn pixel(self, x: int, y: int) -> Color {
        self.pixels[y * self.width + x]
    }

    /// The raster of the given size with every pixel of colour `fill`.
    pub open spec fn filled(width: nat, height: nat, fill: Color) -> Raster {
        Raster { width, height, pixels: Seq::new(width * height, |i: int| fill) }
    }

    /// Whether the two rasters have the same size.
    pub open spec fn same_size(self, other: Raster) -> bool {
        &&& self.width == other.width
        &&& self.height == other.height
        &&& self.pixels.len() == other.pixels.len()
    }

    /// Whether this raster comes from `before` by painting with `color`
    /// alone: the size is kept, and every pixel either is as it was or has
    /// the colour.
    pub open spec fn painted_from(self, before: Raster, color: Color) -> bool {
        &&& self.same_size(before)
        &&& forall|i: int|
            0 <= i < self.pixels.len() ==> #[trigger] self.pixels[i] == before.pixels[i]
                || self.pixels[i] == color
    }

    /// Whether this raster comes from `before` by painting with colours of
    /// `colors` alone: the size is kept, and every pixel either is as it was
    /// or has one of the colours.
    pub open spec fn painted_among(self, before: Raster, colors: Seq<Color>) -> bool {
        &&& self.same_size(before)
        &&& forall|i: int|
            0 <= i < self.pixels.len() ==> #[trigger] self.pixels[i] == before.pixels[i]
                || colors.contains(self.pixels[i])
    }

    /// The bytes that encoding the raster in a format gives, or `None`
    /// where the encoder fails on it.
    pub open spec fn encoded(self, format: ImageFormat) -> Option<Seq<u8>> {
        encoded_image(self.pixels, self.width, self.height, format)
    }

    /// Whether some pixel of the raster has the colour.
    pub open spec fn shows(self, color: Color) -> bool {
        self.pixels.contains(color)
    }
}

/// A canvas of RGBA pixels.
///
/// Trusted: the struct holds an `image::RgbaImage`, whose declaration the
/// verifier does not accept, so nothing inside a canvas is visible to
/// proofs. What they know of one is its `Raster`, through the three
/// functions below and the contracts of the wrappers in this file.
#[verifier::external_body]
pub struct Canvas {
    buffer: image::RgbaImage,
}

/// The width of the canvas in pixels, as `ImageBuffer::width` reports it.
pub uninterp spec fn canvas_width(canvas: Canvas) -> nat;

/// The height of the canvas in pixels, as `ImageBuffer::height` reports it.
pub uninterp spec fn canvas_height(canvas: Canvas) -> nat;

/// The pixels of the canvas in the order in which `ImageBuffer` stores
/// them: row by row from the top, each row from the left.
pub uninterp spec fn canvas_pixels(canvas: Canvas) -> Seq<Color>;

impl View for Canvas {
    type V = Raster;

    open spec fn view(&self) -> Raster {
        Raster {
            width: canvas_width(*self),
            height: canvas_height(*self),
            pixels: canvas_pixels(*self),
        }
    }
}

/// An error of the `image` crate's encoders.
///
/// Trusted: declares the outside type `image::ImageError`, of which the
/// library reads nothing.
#[verifier::external_type_specification]
#[verifier::external_body]
pub struct ExImageError(image::ImageError);

/// Trusted: calls `ImageBuffer::from_fn` with a function that gives every
/// position the colour `fill`. The call panics when the buffer length
/// `4 * width * height` overflows `usize`, which the precondition excludes.
/// The contract claims the size and that every pixel has the colour.
#[verifier::external_body]
fn filled_buffer(width: u32, height: u32, fill: Color) -> (canvas: Canvas)
    requires
        4 * width * height <= usize::MAX,
    ensures
        canvas@ == Raster::filled(width as nat, height as nat, fill),
{
    Canvas {
        buffer: image::ImageBuffer::from_fn(
            width,
            height,
            |_, _| image::Rgba([fill.r, fill.g, fill.b, fill.a]),
        ),
    }
}

/// Trusted: calls `ImageBuffer::width`.
#[verifier::external_body]
fn buffer_width(canvas: &Canvas) -> (width: u32)
    ensures
        width == canvas_width(*canvas),
{
    canvas.buffer.width()
}

/// Trusted: calls `ImageBuffer::height`.
#[verifier::external_body]
fn buffer_height(canvas: &Canvas) -> (height: u32)
    ensures
        height == canvas_height(*canvas),
{
    canvas.buffer.height()
}

/// Trusted: calls `ImageBuffer::get_pixel`, which panics on a position
/// outside the image; the precondition excludes those. The contract claims
/// that the pixel returned is the one stored for column `x` of row `y`.
#[verifier::external_body]
fn buffer_pixel(canvas: &Canvas, x: u32, y: u32) -> (color: Color)
    requires
        canvas@.contains(x as int, y as int),
    ensures
        color == canvas_pixels(*canvas)[y * canvas_width(*canvas) + x],
{
    let image::Rgba([r, g, b, a]) = *canvas.buffer.get_pixel(x, y);
    Color { r, g, b, a }
}

/// Trusted: calls `imageproc::drawing::draw_cubic_bezier_curve_mut` with the
/// stroke's four points as floating-point pairs; every `u16` converts
/// exactly. The routine approximates the curve by line segments and sets
/// each pixel of a segment that lies on the image to `color`. The contract
/// claims no more than that: the size is kept and every pixel is as it was
/// or has the colour.
#[verifier::external_body]
pub(crate) fn paint_stroke(canvas: &mut Canvas, stroke: &Stroke, color: Color)
    ensures
        final(canvas)@.painted_from(old(canvas)@, color),
{
    imageproc::drawing::draw_cubic_bezier_curve_mut(
        &mut canvas.buffer,
        (stroke.start.x.into(), stroke.start.y.into()),
        (stroke.end.x.into(), stroke.end.y.into()),
        (stroke.control_a.x.into(), stroke.control_a.y.into()),
        (stroke.control_b.x.into(), stroke.control_b.y.into()),
        image::Rgba([color.r, color.g, color.b, color.a]),
    );
}

/// Trusted: calls `imageproc::drawing::draw_filled_ellipse_mut` with the
/// disc's centre and its radius for both axes. With equal radii the routine
/// fills a circle by horizontal runs, of which one passes through the
/// centre, and sets each pixel of a run that lies on the image to `color`.
/// The contract claims that the size is kept, that every pixel is as it was
/// or has the colour, and that a centre on the image has the colour.
#[verifier::external_body]
pub(crate) fn paint_disc(canvas: &mut Canvas, disc: &Disc, color: Color)
    ensures
        final(canvas)@.painted_from(old(canvas)@, color),
        old(canvas)@.contains(disc.center.x as int, disc.center.y as int)
            ==> final(canvas)@.pixel(disc.center.x as int, disc.center.y as int) == color,
{
    imageproc::drawing::draw_filled_ellipse_mut(
        &mut canvas.buffer,
        (disc.center.x.into(), disc.center.y.into()),
        disc.radius.into(),
        disc.radius.into(),
        image::Rgba([color.r, color.g, color.b, color.a]),
    );
}

/// Trusted: calls `imageproc::drawing::draw_text_mut` with the stamp's
/// position as `i32`, its scale as a `rusttype::Scale` and its glyph as a
/// string of one character; every number converts exactly. Layout looks the
/// character's glyph up, asserts that the font has it, and unwraps its
/// horizontal metrics; scaling divides by the font's line height, and the
/// raster's place is found by adding multiples of the outline's bounds as
/// `i32`. The precondition excludes the characters on which the assertion
/// or an unwrap fails, or on which those numbers are unbounded. The routine
/// blends the glyph's coverage into the pixels it touches on the image. The
/// contract claims only that the size is kept.
#[verifier::external_body]
pub(crate) fn paint_glyph(canvas: &mut Canvas, font: &rusttype::Font<'static>, stamp: &Stamp)
    requires
        renders(*font, stamp.glyph),
        stamp.scale_x > 0,
        stamp.scale_y > 0,
    ensures
        final(canvas)@.same_size(old(canvas)@),
{
    imageproc::drawing::draw_text_mut(
        &mut canvas.buffer,
        image::Rgba([stamp.color.r, stamp.color.g, stamp.color.b, stamp.color.a]),
        stamp.x.into(),
        stamp.y.into(),
        rusttype::Scale { x: stamp.scale_x.into(), y: stamp.scale_y.into() },
        font,
        &stamp.glyph.to_string(),
    );
}

/// Trusted: calls `imageproc::noise::gaussian_noise_mut` with the mean and
/// the standard deviation as floating-point numbers; every `u32` converts
/// exactly. The routine rejects only a negative or undefined deviation,
/// which no `u32` gives, and adds noise to every channel of every pixel in
/// place. The contract claims only that the size is kept.
#[verifier::external_body]
pub(crate) fn add_gaussian_noise(canvas: &mut Canvas, mean: u32, deviation: u32, seed: u64)
    ensures
        final(canvas)@.same_size(old(canvas)@),
{
    imageproc::noise::gaussian_noise_mut(&mut canvas.buffer, mean.into(), deviation.into(), seed);
}

/// What `ImageBuffer::write_to` writes for an image of the given pixels and
/// size in the given format, or `None` where the encoder reports a failure.
pub uninterp spec fn encoded_image(
    pixels: Seq<Color>,
    width: nat,
    height: nat,
    format: ImageFormat,
) -> Option<Seq<u8>>;

/// Trusted: calls `ImageBuffer::write_to` on a cursor over an empty byte
/// vector, with the `image` format that stands for `format`, and hands back
/// the vector when the encoder reports success. The contract names the
/// outcome: each of the three encoders computes its bytes, or fails, from
/// the pixels, the size and the format alone, in integer arithmetic and,
/// for JPEG, the basic floating-point operations, which are correctly
/// rounded. Beside the name it claims the magic header,
/// which each encoder writes before anything else: the PNG signature, the
/// JPEG start-of-image marker followed by the first segment's marker, and
/// the tags `RIFF` and `WEBP` around the length field. It claims nothing
/// of when the encoder succeeds.
#[verifier::external_body]
pub(crate) fn encode_buffer(canvas: &Canvas, format: ImageFormat) -> (encoded: Result<
    Vec<u8>,
    image::ImageError,
>)
    ensures
        match encoded {
            Ok(bytes) => encoded_image(
                canvas_pixels(*canvas),
                canvas_width(*canvas),
                canvas_height(*canvas),
                format,
            ) == Some(bytes@) && has_signature(bytes@, format),
            Err(_) => encoded_image(
                canvas_pixels(*canvas),
                canvas_width(*canvas),
                canvas_height(*canvas),
                format,
            ) is None,
        },
{
    let mut bytes: Vec<u8> = Vec::new();
    let target = match format {
        ImageFormat::Png => image::ImageFormat::Png,
        ImageFormat::Jpeg => image::ImageFormat::Jpeg,
        ImageFormat::WebP => image::ImageFormat::WebP,
    };
    let written = canvas.buffer.write_to(&mut std::io::Cursor::new(&mut bytes), target);
    written.map(|_| bytes)
}

impl Canvas {
    /// A white canvas of the given size, if the size is supported.
    pub fn new(width: u32, height: u32) -> (canvas: Option<Canvas>)
        ensures
            canvas is Some <==> supported_dimensions(width as int, height as int),
            canvas matches Some(blank) ==> blank@ == Raster::filled(
                width as nat,
                height as nat,
                white(),
            ) && blank@.wf(),
    {
        if width < MIN_WIDTH || width > MAX_DIMENSION || height < MIN_HEIGHT || height
            > MAX_DIMENSION {
            return None;
        }
        assert(4 * width * height <= usize::MAX) by (nonlinear_arith)
            requires
                width <= 16384,
                height <= 16384,
                usize::MAX >= 0xffff_ffff,
        ;
        Some(filled_buffer(width, height, white_color()))
    }

    /// The width of the canvas in pixels.
    pub fn width(&self) -> (width: u32)
        ensures
            width == self@.width,
    {
        buffer_width(self)
    }

    /// The height of the canvas in pixels.
    pub fn height(&self) -> (height: u32)
        ensures
            height == self@.height,
    {
        buffer_height(self)
    }

    /// The pixel at column `x` of row `y`, if the canvas has that position.
    pub fn pixel(&self, x: u32, y: u32) -> (color: Option<Color>)
        ensures
            color is Some <==> self@.contains(x as int, y as int),
            color matches Some(c) ==> c == self@.pixel(x as int, y as int),
    {
        if x < buffer_width(self) && y < buffer_height(self) {
            Some(buffer_pixel(self, x, y))
        } else {
            None
        }
    }
}

} // verus!
