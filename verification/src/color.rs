use vstd::prelude::*;

use crate::error::Error;
use crate::strutil::str_to_chars;

verus! {

/// An sRGB color with alpha, each channel an eight-bit value.
#[derive(Debug, Clone, Copy, PartialEq, Eq, Structural)]
pub struct Color {
    pub a: u8,
    pub r: u8,
    pub g: u8,
    pub b: u8,
}

pub open spec fn spec_is_hex_digit(c: char) -> bool {
    ('0' <= c && c <= '9') || ('a' <= c && c <= 'f') || ('A' <= c && c <= 'F')
}

pub open spec fn spec_hex_val(c: char) -> int {
    if '0' <= c && c <= '9' {
        c as int - '0' as int
    } else if 'a' <= c && c <= 'f' {
        c as int - 'a' as int + 10
    } else {
        c as int - 'A' as int + 10
    }
}

/// The value of two hex digits.
pub open spec fn spec_hex_byte(hi: char, lo: char) -> int {
    spec_hex_val(hi) * 16 + spec_hex_val(lo)
}

/// A shorthand digit doubled, as in `#fa0`.
pub open spec fn spec_hex_twice(c: char) -> int {
    spec_hex_val(c) * 16 + spec_hex_val(c)
}

pub open spec fn all_hex(s: Seq<char>) -> bool {
    forall|i: int| 0 <= i < s.len() ==> spec_is_hex_digit(#[trigger] s[i])
}

/// The color a hex literal denotes: `#rgb`, `#rgba`, `#rrggbb` or
/// `#rrggbbaa`, case-insensitive, alpha defaulting to 255.
pub open spec fn spec_color_of_hex(s: Seq<char>) -> Option<Color> {
    if s.len() < 1 || s[0] != '#' {
        None
    } else {
        let d = s.skip(1);
        if !all_hex(d) {
            None
        } else if d.len() == 3 {
            Some(
                Color {
                    a: 255,
                    r: spec_hex_twice(d[0]) as u8,
                    g: spec_hex_twice(d[1]) as u8,
                    b: spec_hex_twice(d[2]) as u8,
                },
            )
        } else if d.len() == 4 {
            Some(
                Color {
                    a: spec_hex_twice(d[3]) as u8,
                    r: spec_hex_twice(d[0]) as u8,
                    g: spec_hex_twice(d[1]) as u8,
                    b: spec_hex_twice(d[2]) as u8,
                },
            )
        } else if d.len() == 6 {
            Some(
                Color {
                    a: 255,
                    r: spec_hex_byte(d[0], d[1]) as u8,
                    g: spec_hex_byte(d[2], d[3]) as u8,
                    b: spec_hex_byte(d[4], d[5]) as u8,
                },
            )
        } else if d.len() == 8 {
            Some(
                Color {
                    a: spec_hex_byte(d[6], d[7]) as u8,
                    r: spec_hex_byte(d[0], d[1]) as u8,
                    g: spec_hex_byte(d[2], d[3]) as u8,
                    b: spec_hex_byte(d[4], d[5]) as u8,
                },
            )
        } else {
            None
        }
    }
}

/// The numeric value of one hex digit, or `None` for any other character.
fn hex_digit(c: char) -> (r: Option<u8>)
    ensures
        match r {
            Some(v) => spec_is_hex_digit(c) && v == spec_hex_val(c),
            None => !spec_is_hex_digit(c),
        },
{
    if '0' <= c && c <= '9' {
        Some((c as u8) - ('0' as u8))
    } else if 'a' <= c && c <= 'f' {
        Some((c as u8) - ('a' as u8) + 10)
    } else if 'A' <= c && c <= 'F' {
        Some((c as u8) - ('A' as u8) + 10)
    } else {
        None
    }
}

/// Parses a template color: a `#`-prefixed hex literal of three, four, six
/// or eight digits.  Any other text is a template error.
pub fn parse_color(s: &str) -> (r: Result<Color, Error>)
    ensures
        match r {
            Ok(c) => spec_color_of_hex(s@) == Some(c),
            Err(e) => spec_color_of_hex(s@) is None && e is TemplateError,
        },
{
    let chars = str_to_chars(s);
    if chars.len() < 1 || chars[0] != '#' {
        return Err(Error::TemplateError("color must start with '#'".to_owned()));
    }
    let n = chars.len() - 1;
    if !(n == 3 || n == 4 || n == 6 || n == 8) {
        proof {
            assert(s@.skip(1).len() == n);
        }
        return Err(Error::TemplateError("color needs 3, 4, 6 or 8 hex digits".to_owned()));
    }
    let mut digits: Vec<u8> = Vec::new();
    let mut i: usize = 1;
    while i < chars.len()
        invariant
            1 <= i <= chars.len(),
            chars@ == s@,
            chars.len() >= 1,
            digits@.len() == i - 1,
            forall|k: int|
                0 <= k < digits@.len() ==> spec_is_hex_digit(s@.skip(1)[k]) && digits@[k]
                    == spec_hex_val(#[trigger] s@.skip(1)[k]),
        decreases chars.len() - i,
    {
        match hex_digit(chars[i]) {
            Some(v) => {
                digits.push(v);
            },
            None => {
                proof {
                    assert(s@.skip(1)[i - 1] == s@[i as int]);
                    assert(!all_hex(s@.skip(1)));
                }
                return Err(Error::TemplateError("color holds a character that is no hex digit".to_owned()));
            },
        }
        i += 1;
    }
    proof {
        assert(forall|k: int| 0 <= k < s@.skip(1).len() ==> s@.skip(1)[k] == s@[k + 1]);
        assert(all_hex(s@.skip(1)));
    }
    let c = if n == 3 {
        Color {
            a: 255,
            r: digits[0] * 16 + digits[0],
            g: digits[1] * 16 + digits[1],
            b: digits[2] * 16 + digits[2],
        }
    } else if n == 4 {
        Color {
            a: digits[3] * 16 + digits[3],
            r: digits[0] * 16 + digits[0],
            g: digits[1] * 16 + digits[1],
            b: digits[2] * 16 + digits[2],
        }
    } else if n == 6 {
        Color {
            a: 255,
            r: digits[0] * 16 + digits[1],
            g: digits[2] * 16 + digits[3],
            b: digits[4] * 16 + digits[5],
        }
    } else {
        Color {
            a: digits[6] * 16 + digits[7],
            r: digits[0] * 16 + digits[1],
            g: digits[2] * 16 + digits[3],
            b: digits[4] * 16 + digits[5],
        }
    };
    Ok(c)
}

} // verus!
