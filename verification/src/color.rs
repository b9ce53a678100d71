//! Opaque colours written as `#RRGGBB`.

use vstd::prelude::*;
use crate::text::{digit_char, is_space, trim, trim_end, trim_start, trimmed};

verus! {

/// An opaque colour: one byte for each of red, green and blue.
#[derive(Clone, Copy, Debug, PartialEq, Eq, Structural)]
pub struct Color {
    pub red: u8,
    pub green: u8,
    pub blue: u8,
}

/// Why a text is no colour.
#[derive(Clone, Copy, Debug, PartialEq, Eq, Structural)]
pub enum ColorError {
    /// The text is not seven characters long, or does not begin with `#`.
    Format,
    /// The two characters of the red channel are not both hexadecimal digits.
    Red,
    /// The two characters of the green channel are not both hexadecimal digits.
    Green,
    /// The two characters of the blue channel are not both hexadecimal digits.
    Blue,
}

/// The value of a hexadecimal digit of either case; `None` for any other
/// character.
pub open spec fn hex_value(c: char) -> Option<int> {
    let n = c as u32 as int;
    if '0' as u32 <= n <= '9' as u32 {
        Some(n - '0' as u32)
    } else if 'a' as u32 <= n <= 'f' as u32 {
        Some(n - 'a' as u32 + 10)
    } else if 'A' as u32 <= n <= 'F' as u32 {
        Some(n - 'A' as u32 + 10)
    } else {
        None
    }
}

/// The byte written by the two hexadecimal digits `hi` and `lo`.
pub open spec fn channel_value(hi: char, lo: char) -> Option<u8> {
    match (hex_value(hi), hex_value(lo)) {
        (Some(h), Some(l)) => Some((16 * h + l) as u8),
        _ => None,
    }
}

/// What a text means as a colour. Whitespace around it does not count. The
/// channels are examined in the order red, green, blue, and the first one
/// that is malformed names the error.
pub open spec fn color_of(text: Seq<char>) -> Result<Color, ColorError> {
    let s = trimmed(text);
    if s.len() != 7 || s[0] != '#' {
        Err(ColorError::Format)
    } else {
        match channel_value(s[1], s[2]) {
            None => Err(ColorError::Red),
            Some(red) => match channel_value(s[3], s[4]) {
                None => Err(ColorError::Green),
                Some(green) => match channel_value(s[5], s[6]) {
                    None => Err(ColorError::Blue),
                    Some(blue) => Ok(Color { red, green, blue }),
                },
            },
        }
    }
}

/// The lower-case hexadecimal digit of value `d`.
pub open spec fn hex_digit(d: int) -> char {
    if d < 10 {
        digit_char(d)
    } else if d == 10 {
        'a'
    } else if d == 11 {
        'b'
    } else if d == 12 {
        'c'
    } else if d == 13 {
        'd'
    } else if d == 14 {
        'e'
    } else {
        'f'
    }
}

/// The `#rrggbb` text of a colour, in lower-case digits.
pub open spec fn hex_text(c: Color) -> Seq<char> {
    seq![
        '#',
        hex_digit(c.red as int / 16),
        hex_digit(c.red as int % 16),
        hex_digit(c.green as int / 16),
        hex_digit(c.green as int % 16),
        hex_digit(c.blue as int / 16),
        hex_digit(c.blue as int % 16),
    ]
}

/// A character with the upper-case hexadecimal digits `A` to `F` turned
/// into lower case.
pub open spec fn lower_hex(c: char) -> char {
    if c == 'A' {
        'a'
    } else if c == 'B' {
        'b'
    } else if c == 'C' {
        'c'
    } else if c == 'D' {
        'd'
    } else if c == 'E' {
        'e'
    } else if c == 'F' {
        'f'
    } else {
        c
    }
}

/// A colour text in normal form: without the whitespace around it and with
/// lower-case digits.
pub open spec fn normalized(text: Seq<char>) -> Seq<char> {
    trimmed(text).map_values(|c: char| lower_hex(c))
}

/// Every digit value below sixteen is read back from its digit.
pub proof fn lemma_hex_digit_value(d: int)
    requires
        0 <= d < 16,
    ensures
        hex_value(hex_digit(d)) == Some(d),
        !is_space(hex_digit(d)),
{
}

/// A hexadecimal digit of either case is rewritten as its lower-case form.
pub proof fn lemma_hex_value_digit(c: char)
    requires
        hex_value(c) is Some,
    ensures
        0 <= hex_value(c).unwrap() < 16,
        hex_digit(hex_value(c).unwrap()) == lower_hex(c),
{
}

/// Parsing undoes encoding: the text written for a colour is read back as
/// that colour.
pub proof fn lemma_parse_inverts_encode(c: Color)
    ensures
        color_of(hex_text(c)) == Ok::<Color, ColorError>(c),
{
    let s = hex_text(c);
    lemma_hex_digit_value(c.red as int / 16);
    lemma_hex_digit_value(c.red as int % 16);
    lemma_hex_digit_value(c.green as int / 16);
    lemma_hex_digit_value(c.green as int % 16);
    lemma_hex_digit_value(c.blue as int / 16);
    lemma_hex_digit_value(c.blue as int % 16);
    assert(!is_space(s[0]));
    assert(!is_space(s[6]));
    assert(trim_start(s, 0) == 0);
    assert(trim_end(s, 7) == 7);
    assert(s.subrange(0, 7) =~= s);
    assert(trimmed(s) == s);
}

/// Encoding undoes parsing up to normal form: when a text is read as a
/// colour, the text written for that colour is the normal form of the text.
pub proof fn lemma_encode_inverts_parse(text: Seq<char>)
    requires
        color_of(text) is Ok,
    ensures
        hex_text(color_of(text).unwrap()) == normalized(text),
{
    let s = trimmed(text);
    lemma_hex_value_digit(s[1]);
    lemma_hex_value_digit(s[2]);
    lemma_hex_value_digit(s[3]);
    lemma_hex_value_digit(s[4]);
    lemma_hex_value_digit(s[5]);
    lemma_hex_value_digit(s[6]);
    assert(hex_text(color_of(text).unwrap()) =~= normalized(text));
}

/// Whether a text is framed as a colour: seven characters, the first of
/// them `#`.
pub open spec fn is_framed(s: Seq<char>) -> bool {
    s.len() == 7 && s[0] == '#'
}

/// Whether the characters at `i` and `i + 1` are both hexadecimal digits.
pub open spec fn is_hex_pair(s: Seq<char>, i: int) -> bool {
    hex_value(s[i]) is Some && hex_value(s[i + 1]) is Some
}

/// A text is a colour exactly when, without the whitespace around it, it is
/// `#` followed by six hexadecimal digits. Each error comes on exactly the
/// texts that it describes: a text that is not framed is a format error,
/// and a framed text has the error of its first channel that is not written
/// in two hexadecimal digits.
pub proof fn lemma_color_outcomes(text: Seq<char>)
    ensures
        ({
            let s = trimmed(text);
            let red = is_hex_pair(s, 1);
            let green = is_hex_pair(s, 3);
            let blue = is_hex_pair(s, 5);
            &&& color_of(text) is Ok <==> is_framed(s) && red && green && blue
            &&& color_of(text) == Err::<Color, ColorError>(ColorError::Format) <==> !is_framed(s)
            &&& color_of(text) == Err::<Color, ColorError>(ColorError::Red) <==> is_framed(s)
                && !red
            &&& color_of(text) == Err::<Color, ColorError>(ColorError::Green) <==> is_framed(s)
                && red && !green
            &&& color_of(text) == Err::<Color, ColorError>(ColorError::Blue) <==> is_framed(s)
                && red && green && !blue
        }),
{
}

/// The channels of a colour are the values of its digit pairs: sixteen
/// times the first digit plus the second.
pub proof fn lemma_color_channels(text: Seq<char>)
    requires
        color_of(text) is Ok,
    ensures
        ({
            let s = trimmed(text);
            let c = color_of(text).unwrap();
            &&& c.red == 16 * hex_value(s[1]).unwrap() + hex_value(s[2]).unwrap()
            &&& c.green == 16 * hex_value(s[3]).unwrap() + hex_value(s[4]).unwrap()
            &&& c.blue == 16 * hex_value(s[5]).unwrap() + hex_value(s[6]).unwrap()
        }),
{
}

/// Reads one hexadecimal digit.
fn hex_digit_value(c: char) -> (v: Option<u8>)
    ensures
        match v {
            Some(d) => hex_value(c) == Some(d as int) && d < 16,
            None => hex_value(c) is None,
        },
{
    let n: u32 = c as u32;
    if 0x30 <= n && n <= 0x39 {
        Some((n - 0x30) as u8)
    } else if 0x61 <= n && n <= 0x66 {
        Some((n - 0x61 + 10) as u8)
    } else if 0x41 <= n && n <= 0x46 {
        Some((n - 0x41 + 10) as u8)
    } else {
        None
    }
}

/// Reads the byte written by two hexadecimal digits.
fn parse_channel(hi: char, lo: char) -> (v: Option<u8>)
    ensures
        v == channel_value(hi, lo),
{
    match (hex_digit_value(hi), hex_digit_value(lo)) {
        (Some(h), Some(l)) => Some(16 * h + l),
        _ => None,
    }
}

/// Parses a colour of the form `#RRGGBB`, digits of either case, ignoring
/// whitespace around it.
pub fn parse_color(text: &str) -> (parsed: Result<Color, ColorError>)
    ensures
        parsed == color_of(text@),
{
    let s = trim(text);
    if s.unicode_len() != 7 || s.get_char(0) != '#' {
        return Err(ColorError::Format);
    }
    let red = match parse_channel(s.get_char(1), s.get_char(2)) {
        Some(v) => v,
        None => { return Err(ColorError::Red); },
    };
    let green = match parse_channel(s.get_char(3), s.get_char(4)) {
        Some(v) => v,
        None => { return Err(ColorError::Green); },
    };
    let blue = match parse_channel(s.get_char(5), s.get_char(6)) {
        Some(v) => v,
        None => { return Err(ColorError::Blue); },
    };
    Ok(Color { red, green, blue })
}

/// The one-character text of a lower-case hexadecimal digit.
fn hex_digit_str(d: u8) -> (s: &'static str)
    requires
        d < 16,
    ensures
        s@ == seq![hex_digit(d as int)],
{
    proof {
        reveal_strlit("0");
        reveal_strlit("1");
        reveal_strlit("2");
        reveal_strlit("3");
        reveal_strlit("4");
        reveal_strlit("5");
        reveal_strlit("6");
        reveal_strlit("7");
        reveal_strlit("8");
        reveal_strlit("9");
        reveal_strlit("a");
        reveal_strlit("b");
        reveal_strlit("c");
        reveal_strlit("d");
        reveal_strlit("e");
        reveal_strlit("f");
    }
    let s = if d == 0 {
        "0"
    } else if d == 1 {
        "1"
    } else if d == 2 {
        "2"
    } else if d == 3 {
        "3"
    } else if d == 4 {
        "4"
    } else if d == 5 {
        "5"
    } else if d == 6 {
        "6"
    } else if d == 7 {
        "7"
    } else if d == 8 {
        "8"
    } else if d == 9 {
        "9"
    } else if d == 10 {
        "a"
    } else if d == 11 {
        "b"
    } else if d == 12 {
        "c"
    } else if d == 13 {
        "d"
    } else if d == 14 {
        "e"
    } else {
        "f"
    };
    assert(s@ =~= seq![hex_digit(d as int)]);
    s
}

impl Color {
    /// Writes the colour as `#rrggbb`, in lower-case digits.
    pub fn to_hex(&self) -> (s: String)
        ensures
            s@ == hex_text(*self),
    {
        proof {
            reveal_strlit("#");
        }
        let mut s = String::from_str("#");
        s.append(hex_digit_str(self.red / 16));
        s.append(hex_digit_str(self.red % 16));
        s.append(hex_digit_str(self.green / 16));
        s.append(hex_digit_str(self.green % 16));
        s.append(hex_digit_str(self.blue / 16));
        s.append(hex_digit_str(self.blue % 16));
        assert(s@ =~= hex_text(*self));
        s
    }
}

} // verus!
