//! Image container formats: their names and the bytes each one opens with.

use vstd::prelude::*;
use vstd::string::StrSliceExecFns;

verus! {

/// The containers a captcha image can be encoded into.
#[derive(Clone, Copy, Debug, PartialEq, Eq, Structural)]
pub enum ImageFormat {
    Png,
    Jpeg,
    WebP,
}

/// The format that a name selects: `png`, `jpg` or `jpeg`, and `webp` name
/// their containers; every other name falls back to PNG.
pub open spec fn parse_format(name: Seq<char>) -> ImageFormat {
    if name == "jpg"@ || name == "jpeg"@ {
        ImageFormat::Jpeg
    } else if name == "webp"@ {
        ImageFormat::WebP
    } else {
        ImageFormat::Png
    }
}

/// The eight bytes that open every PNG file.
pub open spec fn png_signature() -> Seq<u8> {
    seq![0x89u8, 0x50u8, 0x4Eu8, 0x47u8, 0x0Du8, 0x0Au8, 0x1Au8, 0x0Au8]
}

/// The start-of-image marker of a JPEG file and the lead byte of the
/// marker that follows it.
pub open spec fn jpeg_signature() -> Seq<u8> {
    seq![0xFFu8, 0xD8u8, 0xFFu8]
}

/// The tag `RIFF` that opens a WebP file.
pub open spec fn riff_tag() -> Seq<u8> {
    seq![0x52u8, 0x49u8, 0x46u8, 0x46u8]
}

/// The tag `WEBP` that follows the length field of the RIFF header.
pub open spec fn webp_tag() -> Seq<u8> {
    seq![0x57u8, 0x45u8, 0x42u8, 0x50u8]
}

/// Whether `bytes` opens with the magic header of `format`.
pub open spec fn has_signature(bytes: Seq<u8>, format: ImageFormat) -> bool {
    match format {
        ImageFormat::Png => bytes.len() >= 8 && bytes.subrange(0, 8) == png_signature(),
        ImageFormat::Jpeg => bytes.len() >= 3 && bytes.subrange(0, 3) == jpeg_signature(),
        ImageFormat::WebP => bytes.len() >= 12 && bytes.subrange(0, 4) == riff_tag()
            && bytes.subrange(8, 12) == webp_tag(),
    }
}

/// Whether two strings hold the same characters.
fn same_text(a: &str, b: &str) -> (same: bool)
    ensures
        same == (a@ == b@),
{
    let n = a.unicode_len();
    if n != b.unicode_len() {
        return false;
    }
    let mut i: usize = 0;
    while i < n
        invariant
            i <= n,
            a@.len() == n,
            b@.len() == n,
            forall|j: int| 0 <= j < i ==> a@[j] == b@[j],
        decreases n - i,
    {
        if a.get_char(i) != b.get_char(i) {
            return false;
        }
        i += 1;
    }
    assert(a@ =~= b@);
    true
}

impl ImageFormat {
    /// The format that `name` selects. Names are matched exactly; an
    /// unknown name is no error and selects PNG.
    pub fn from_name(name: &str) -> (format: ImageFormat)
        ensures
            format == parse_format(name@),
    {
        if same_text(name, "jpg") || same_text(name, "jpeg") {
            ImageFormat::Jpeg
        } else if same_text(name, "webp") {
            ImageFormat::WebP
        } else {
            ImageFormat::Png
        }
    }
}

/// Bytes that open with a format's magic header are never empty.
pub proof fn signed_bytes_are_not_empty(bytes: Seq<u8>, format: ImageFormat)
    requires
        has_signature(bytes, format),
    ensures
        bytes.len() > 0,
{
}

/// The four recognised names select their containers, and `png` selects
/// what every unknown name selects.
pub proof fn recognised_names()
    ensures
        parse_format("png"@) == ImageFormat::Png,
        parse_format("jpg"@) == ImageFormat::Jpeg,
        parse_format("jpeg"@) == ImageFormat::Jpeg,
        parse_format("webp"@) == ImageFormat::WebP,
{
    reveal_strlit("png");
    reveal_strlit("jpg");
    reveal_strlit("jpeg");
    reveal_strlit("webp");
    assert("jpg"@[0] == 'j');
    assert("jpeg"@[0] == 'j');
    assert("webp"@[0] == 'w');
}

/// Every name but `jpg`, `jpeg` and `webp` selects PNG.
pub proof fn other_names_select_png(name: Seq<char>)
    requires
        name != "jpg"@,
        name != "jpeg"@,
        name != "webp"@,
    ensures
        parse_format(name) == ImageFormat::Png,
{
}

} // verus!
