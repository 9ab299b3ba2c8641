//! The glyph alphabet and the random text drawn from it.

use crate::random::rand_num;
use vstd::prelude::*;
use vstd::string::StrSliceExecFns;

verus! {

/// Number of glyphs in the alphabet.
pub const ALPHABET_LEN: usize = 54;

/// The glyphs a captcha may show, in drawing order: the digits and letters
/// that are hard to mistake for one another.
pub open spec fn alphabet() -> Seq<char> {
    "23456789ABCDEFGHJKMNPQRSTUVWXYZabcdefghjkmnpqrstuvwxyz"@
}

/// Whether `c` is one of the alphabet's glyphs.
pub open spec fn is_alphabet_char(c: char) -> bool {
    alphabet().contains(c)
}

/// Whether every character of `text` is one of the alphabet's glyphs.
pub open spec fn is_alphabet_text(text: Seq<char>) -> bool {
    forall|i: int| 0 <= i < text.len() ==> is_alphabet_char(#[trigger] text[i])
}

/// The alphabet has exactly `ALPHABET_LEN` glyphs.
pub proof fn alphabet_len()
    ensures
        alphabet().len() == ALPHABET_LEN,
{
    reveal_strlit("23456789ABCDEFGHJKMNPQRSTUVWXYZabcdefghjkmnpqrstuvwxyz");
}

/// Whether `c` is a digit from 2 to 9 or a Latin letter other than `I`,
/// `L`, `O` and their lower-case forms: the characters that are not easily
/// mistaken for one another.
pub open spec fn is_unambiguous(c: char) -> bool {
    ||| '2' <= c <= '9'
    ||| ('A' <= c <= 'Z' && c != 'I' && c != 'L' && c != 'O')
    ||| ('a' <= c <= 'z' && c != 'i' && c != 'l' && c != 'o')
}

/// The position in the alphabet of an unambiguous character.
pub open spec fn position_of(c: char) -> int {
    if c <= '9' {
        c as int - '2' as int
    } else if c <= 'H' {
        8 + c as int - 'A' as int
    } else if c <= 'K' {
        16 + c as int - 'J' as int
    } else if c <= 'N' {
        18 + c as int - 'M' as int
    } else if c <= 'Z' {
        20 + c as int - 'P' as int
    } else if c <= 'h' {
        31 + c as int - 'a' as int
    } else if c <= 'k' {
        39 + c as int - 'j' as int
    } else if c <= 'n' {
        41 + c as int - 'm' as int
    } else {
        43 + c as int - 'p' as int
    }
}

/// The alphabet holds exactly the unambiguous characters, each at its
/// position.
pub proof fn alphabet_is_unambiguous(c: char)
    ensures
        is_alphabet_char(c) <==> is_unambiguous(c),
        is_unambiguous(c) ==> 0 <= position_of(c) < ALPHABET_LEN && alphabet()[position_of(c)] == c,
{
    reveal_strlit("23456789ABCDEFGHJKMNPQRSTUVWXYZabcdefghjkmnpqrstuvwxyz");
    if is_unambiguous(c) {
        assert(alphabet()[position_of(c)] == c);
    }
    if is_alphabet_char(c) {
        let i = choose|i: int| 0 <= i < alphabet().len() && alphabet()[i] == c;
        assert(is_unambiguous(alphabet()[i]));
    }
}

/// The glyph at position `index` of the alphabet.
pub fn alphabet_char(index: usize) -> (c: char)
    requires
        index < ALPHABET_LEN,
    ensures
        c == alphabet()[index as int],
        is_alphabet_char(c),
{
    proof {
        alphabet_len();
    }
    "23456789ABCDEFGHJKMNPQRSTUVWXYZabcdefghjkmnpqrstuvwxyz".get_char(index)
}

/// Generates a random captcha text of `len` glyphs, each drawn uniformly
/// and independently from the alphabet.
pub fn rand_captcha(len: usize) -> (text: String)
    ensures
        text@.len() == len,
        is_alphabet_text(text@),
{
    let mut text = String::new();
    let last: usize = ALPHABET_LEN - 1;
    let mut i: usize = 0;
    while i < len
        invariant
            i <= len,
            last == ALPHABET_LEN - 1,
            text@.len() == i,
            is_alphabet_text(text@),
        decreases len - i,
    {
        let index = rand_num(last);
        let c = alphabet_char(index);
        text.push(c);
        i += 1;
    }
    text
}

} // verus!
