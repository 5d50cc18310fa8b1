//! Colours and their stored form.

use crate::text;
use vstd::prelude::*;

verus! {

/// A colour.
#[derive(Clone, Copy, Debug, PartialEq, Eq, Structural)]
pub struct Rgb {
    /// Red.
    pub r: u8,
    /// Green.
    pub g: u8,
    /// Blue.
    pub b: u8,
}

/// The byte that two hexadecimal digits write.
pub open spec fn byte_of(high: char, low: char) -> Option<u8> {
    match (text::digit_of(high), text::digit_of(low)) {
        (Some(high), Some(low)) => Some((high * 16 + low) as u8),
        _ => None,
    }
}

/// The colour that six hexadecimal digits write.
pub open spec fn color_of(digits: Seq<char>) -> Option<Rgb> {
    if digits.len() != 6 {
        None
    } else {
        match (
            byte_of(digits[0], digits[1]),
            byte_of(digits[2], digits[3]),
            byte_of(digits[4], digits[5]),
        ) {
            (Some(r), Some(g), Some(b)) => Some(Rgb { r, g, b }),
            _ => None,
        }
    }
}

/// The colour that a text names: six hexadecimal digits, with or without a number
/// sign before them.
pub open spec fn named_color(text: Seq<char>) -> Option<Rgb> {
    if text.len() > 0 && text[0] == '#' {
        color_of(text.skip(1))
    } else {
        color_of(text)
    }
}

/// The byte that two hexadecimal digits write.
fn read_byte(high: char, low: char) -> (byte: Option<u8>)
    ensures
        byte == byte_of(high, low),
{
    match (text::read_digit(high), text::read_digit(low)) {
        (Some(high), Some(low)) => Some(high * 16 + low),
        _ => None,
    }
}

impl Rgb {
    /// White.
    #[must_use]
    pub fn white() -> (color: Rgb)
        ensures
            color == (Rgb { r: 255, g: 255, b: 255 }),
    {
        Rgb { r: 255, g: 255, b: 255 }
    }

    /// A colour of its three parts.
    #[must_use]
    pub fn new(r: u8, g: u8, b: u8) -> (color: Rgb)
        ensures
            color == (Rgb { r, g, b }),
    {
        Rgb { r, g, b }
    }

    /// The stored form: six lower-case hexadecimal digits.
    pub open spec fn digits(self) -> Seq<char> {
        text::hex_byte(self.r) + text::hex_byte(self.g) + text::hex_byte(self.b)
    }

    /// The stored form: six lower-case hexadecimal digits.
    #[must_use]
    pub fn to_hex(&self) -> (hex: String)
        ensures
            hex@ == self.digits(),
    {
        let mut hex = String::new();
        text::push_hex_byte(&mut hex, self.r);
        text::push_hex_byte(&mut hex, self.g);
        text::push_hex_byte(&mut hex, self.b);
        assert(hex@ =~= self.digits());
        hex
    }

    /// Read a colour: six hexadecimal digits, with or without a number sign before
    /// them.
    #[must_use]
    pub fn parse(text: &str) -> (color: Option<Rgb>)
        ensures
            color == named_color(text@),
    {
        let n = text.unicode_len();
        let start: usize = if n > 0 && text.get_char(0) == '#' {
            1
        } else {
            0
        };
        let ghost digits = text@.skip(start as int);
        assert(start == 0 ==> digits =~= text@);
        if n - start != 6 {
            return None;
        }
        let r = read_byte(text.get_char(start), text.get_char(start + 1));
        let g = read_byte(text.get_char(start + 2), text.get_char(start + 3));
        let b = read_byte(text.get_char(start + 4), text.get_char(start + 5));
        match (r, g, b) {
            (Some(r), Some(g), Some(b)) => Some(Rgb { r, g, b }),
            _ => None,
        }
    }

    /// Read a stored colour; one that cannot be read becomes white, so that it does
    /// not cost the settings around it.
    #[must_use]
    pub fn parse_or_white(text: &str) -> (color: Rgb)
        ensures
            color == match named_color(text@) {
                Some(color) => color,
                None => Rgb { r: 255, g: 255, b: 255 },
            },
    {
        match Rgb::parse(text) {
            Some(color) => color,
            None => Rgb::white(),
        }
    }
}

/// A written digit reads back as its value.
proof fn lemma_digit_reads_back(d: nat)
    requires
        d < 16,
    ensures
        text::digit_of(text::hex_digit_lower(d)) == Some(d),
        text::hex_digit_lower(d) != '#',
{
}

/// A written byte reads back.
proof fn lemma_byte_reads_back(byte: u8)
    ensures
        byte_of(text::hex_byte(byte)[0], text::hex_byte(byte)[1]) == Some(byte),
        text::hex_byte(byte)[0] != '#',
{
    lemma_digit_reads_back((byte / 16) as nat);
    lemma_digit_reads_back((byte % 16) as nat);
}

/// A stored colour reads back as itself, and so does the form with a number sign
/// before it.
pub proof fn law_stored_color_reads_back(color: Rgb)
    ensures
        named_color(color.digits()) == Some(color),
        named_color(seq!['#'] + color.digits()) == Some(color),
{
    lemma_byte_reads_back(color.r);
    lemma_byte_reads_back(color.g);
    lemma_byte_reads_back(color.b);
    let digits = color.digits();
    assert(digits[0] == text::hex_byte(color.r)[0]);
    assert(digits[1] == text::hex_byte(color.r)[1]);
    assert(digits[2] == text::hex_byte(color.g)[0]);
    assert(digits[3] == text::hex_byte(color.g)[1]);
    assert(digits[4] == text::hex_byte(color.b)[0]);
    assert(digits[5] == text::hex_byte(color.b)[1]);
    assert((seq!['#'] + digits).skip(1) =~= digits);
}

/// How a color is read: six digits, with or without a number sign in front, the first two
/// for red, the next two for green and the last two for blue, the higher digit first.
pub proof fn law_color_is_read_by_place(text: Seq<char>)
    ensures
        ({
            let start: int = if text.len() > 0 && text[0] == '#' {
                1
            } else {
                0
            };
            let read = |i: int| text::digit_of(text[start + i]);
            let all = text.len() == start + 6 && read(0) is Some && read(1) is Some && read(2)
                is Some && read(3) is Some && read(4) is Some && read(5) is Some;
            &&& named_color(text) is Some <==> all
            &&& named_color(text) matches Some(color) ==> {
                &&& color.r == 16 * read(0)->0 + read(1)->0
                &&& color.g == 16 * read(2)->0 + read(3)->0
                &&& color.b == 16 * read(4)->0 + read(5)->0
            }
        }),
{
    if text.len() > 0 && text[0] == '#' {
        let digits = text.skip(1);
        assert(forall|i: int| 0 <= i < digits.len() ==> digits[i] == text[i + 1]);
    }
}

/// How a color is written: six lowercase digits, two for each of red, green and blue.
pub proof fn law_color_is_written_by_place(color: Rgb)
    ensures
        color.digits().len() == 6,
        text::digit_of(color.digits()[0]) == Some((color.r / 16) as nat),
        text::digit_of(color.digits()[1]) == Some((color.r % 16) as nat),
        text::digit_of(color.digits()[2]) == Some((color.g / 16) as nat),
        text::digit_of(color.digits()[3]) == Some((color.g % 16) as nat),
        text::digit_of(color.digits()[4]) == Some((color.b / 16) as nat),
        text::digit_of(color.digits()[5]) == Some((color.b % 16) as nat),
        forall|i: int|
            0 <= i < 6 ==> '0' <= #[trigger] color.digits()[i] <= '9' || 'a' <= color.digits()[i]
                <= 'f',
{
}

} // verus!
