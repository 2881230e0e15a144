//! Colors as plain 8-bit sRGB triples, with hex parsing and printing.
use vstd::prelude::*;

verus! {

#[derive(Debug, Clone, Copy, PartialEq, Eq, Structural)]
pub struct Srgb8 {
    pub r: u8,
    pub g: u8,
    pub b: u8,
}

/// The uppercase hexadecimal digit for a value below sixteen.
pub open spec fn hex_digit(d: int) -> char {
    if d == 0 {
        '0'
    } else if d == 1 {
        '1'
    } else if d == 2 {
        '2'
    } else if d == 3 {
        '3'
    } else if d == 4 {
        '4'
    } else if d == 5 {
        '5'
    } else if d == 6 {
        '6'
    } else if d == 7 {
        '7'
    } else if d == 8 {
        '8'
    } else if d == 9 {
        '9'
    } else if d == 10 {
        'A'
    } else if d == 11 {
        'B'
    } else if d == 12 {
        'C'
    } else if d == 13 {
        'D'
    } else if d == 14 {
        'E'
    } else {
        'F'
    }
}

/// Two uppercase hex digits for one byte.
pub open spec fn hex_byte(b: int) -> Seq<char> {
    seq![hex_digit(b / 16), hex_digit(b % 16)]
}

/// The `#RRGGBB` rendering of a color.
pub open spec fn spec_hex(c: Srgb8) -> Seq<char> {
    seq!['#'] + hex_byte(c.r as int) + hex_byte(c.g as int) + hex_byte(c.b as int)
}

/// The numeric value of a hex digit character, or 16 for any other character.
pub open spec fn hex_val(c: char) -> int {
    if c == '0' {
        0
    } else if c == '1' {
        1
    } else if c == '2' {
        2
    } else if c == '3' {
        3
    } else if c == '4' {
        4
    } else if c == '5' {
        5
    } else if c == '6' {
        6
    } else if c == '7' {
        7
    } else if c == '8' {
        8
    } else if c == '9' {
        9
    } else if c == 'a' || c == 'A' {
        10
    } else if c == 'b' || c == 'B' {
        11
    } else if c == 'c' || c == 'C' {
        12
    } else if c == 'd' || c == 'D' {
        13
    } else if c == 'e' || c == 'E' {
        14
    } else if c == 'f' || c == 'F' {
        15
    } else {
        16
    }
}

pub open spec fn is_hex_char(c: char) -> bool {
    hex_val(c) < 16
}

/// What parsing a six-digit hex color body yields: the triple encoded by the
/// digits where every character is a hex digit, and black otherwise.
pub open spec fn spec_parse_hex6(s: Seq<char>) -> Srgb8 {
    if s.len() == 6 && (forall|i: int| 0 <= i < 6 ==> is_hex_char(#[trigger] s[i])) {
        Srgb8 {
            r: (hex_val(s[0]) * 16 + hex_val(s[1])) as u8,
            g: (hex_val(s[2]) * 16 + hex_val(s[3])) as u8,
            b: (hex_val(s[4]) * 16 + hex_val(s[5])) as u8,
        }
    } else {
        Srgb8 { r: 0, g: 0, b: 0 }
    }
}

/// The color denoted by a hex string, with one optional leading `#`.
pub open spec fn spec_parse_color(s: Seq<char>) -> Srgb8 {
    if s.len() > 0 && s[0] == '#' {
        spec_parse_hex6(s.drop_first())
    } else {
        spec_parse_hex6(s)
    }
}

impl Srgb8 {
    pub fn new(r: u8, g: u8, b: u8) -> (c: Srgb8)
        ensures
            c == (Srgb8 { r, g, b }),
    {
        Srgb8 { r, g, b }
    }

    /// Renders the color as `#RRGGBB` with uppercase digits.
    pub fn to_hex(self) -> (s: String)
        ensures
            s@ == spec_hex(self),
    {
        let mut out = String::new();
        crate::strutil::push_char(&mut out, '#');
        push_hex_byte(&mut out, self.r);
        push_hex_byte(&mut out, self.g);
        push_hex_byte(&mut out, self.b);
        assert(out@ =~= spec_hex(self));
        out
    }

    /// Parses `#RRGGBB` or `RRGGBB`; any malformed input yields black,
    /// as `spec_parse_color` states.
    pub fn from_hex(s: &str) -> (c: Srgb8)
        ensures
            c == spec_parse_color(s@),
    {
        let n = s.unicode_len();
        if n > 0 && s.get_char(0) == '#' {
            let body = s.substring_char(1, n);
            assert(body@ =~= s@.drop_first());
            parse_hex6(body)
        } else {
            parse_hex6(s)
        }
    }
}

fn hex_digit_char(d: u8) -> (c: char)
    requires
        d < 16,
    ensures
        c == hex_digit(d as int),
{
    if d == 0 {
        '0'
    } else if d == 1 {
        '1'
    } else if d == 2 {
        '2'
    } else if d == 3 {
        '3'
    } else if d == 4 {
        '4'
    } else if d == 5 {
        '5'
    } else if d == 6 {
        '6'
    } else if d == 7 {
        '7'
    } else if d == 8 {
        '8'
    } else if d == 9 {
        '9'
    } else if d == 10 {
        'A'
    } else if d == 11 {
        'B'
    } else if d == 12 {
        'C'
    } else if d == 13 {
        'D'
    } else if d == 14 {
        'E'
    } else {
        'F'
    }
}

fn push_hex_byte(out: &mut String, b: u8)
    ensures
        final(out)@ == old(out)@ + hex_byte(b as int),
{
    let hi = hex_digit_char(b / 16);
    let lo = hex_digit_char(b % 16);
    crate::strutil::push_char(out, hi);
    crate::strutil::push_char(out, lo);
    assert(final(out)@ =~= old(out)@ + hex_byte(b as int));
}

fn hex_char_val(c: char) -> (v: u8)
    ensures
        v == hex_val(c) || (v == 16 && !is_hex_char(c)),
        v <= 16,
        is_hex_char(c) ==> v == hex_val(c),
{
    if c == '0' {
        0
    } else if c == '1' {
        1
    } else if c == '2' {
        2
    } else if c == '3' {
        3
    } else if c == '4' {
        4
    } else if c == '5' {
        5
    } else if c == '6' {
        6
    } else if c == '7' {
        7
    } else if c == '8' {
        8
    } else if c == '9' {
        9
    } else if c == 'a' || c == 'A' {
        10
    } else if c == 'b' || c == 'B' {
        11
    } else if c == 'c' || c == 'C' {
        12
    } else if c == 'd' || c == 'D' {
        13
    } else if c == 'e' || c == 'E' {
        14
    } else if c == 'f' || c == 'F' {
        15
    } else {
        16
    }
}

fn parse_hex6(s: &str) -> (c: Srgb8)
    ensures
        c == spec_parse_hex6(s@),
{
    if s.unicode_len() != 6 {
        return Srgb8 { r: 0, g: 0, b: 0 };
    }
    let d0 = hex_char_val(s.get_char(0));
    let d1 = hex_char_val(s.get_char(1));
    let d2 = hex_char_val(s.get_char(2));
    let d3 = hex_char_val(s.get_char(3));
    let d4 = hex_char_val(s.get_char(4));
    let d5 = hex_char_val(s.get_char(5));
    if d0 > 15 || d1 > 15 || d2 > 15 || d3 > 15 || d4 > 15 || d5 > 15 {
        return Srgb8 { r: 0, g: 0, b: 0 };
    }
    Srgb8 { r: d0 * 16 + d1, g: d2 * 16 + d3, b: d4 * 16 + d5 }
}

} // verus!
