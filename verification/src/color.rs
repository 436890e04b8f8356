//! RGB color values and their textual form: six hex digits, no leading marker.

use vstd::prelude::*;
use vstd::string::*;
use crate::text::is_digit;

verus! {

/// One RGB color, eight bits per channel.
#[derive(Clone, Copy, Debug, PartialEq, Eq, Structural)]
pub struct Rgb {
    pub r: u8,
    pub g: u8,
    pub b: u8,
}

pub open spec fn is_hex_digit(c: char) -> bool {
    is_digit(c) || (97 <= c as u32 && c as u32 <= 102) || (65 <= c as u32 && c as u32 <= 70)
}

pub open spec fn hex_val(c: char) -> nat
    recommends
        is_hex_digit(c),
{
    if is_digit(c) {
        (c as u32 - 48) as nat
    } else if 97 <= c as u32 && c as u32 <= 102 {
        (c as u32 - 87) as nat
    } else {
        (c as u32 - 55) as nat
    }
}

/// What a color field parses to: exactly six hex digits, two per channel.
pub open spec fn color_result(s: Seq<char>) -> Option<Rgb> {
    if s.len() == 6 && (forall|i: int| 0 <= i < 6 ==> is_hex_digit(s[i])) {
        Some(Rgb {
            r: (hex_val(s[0]) * 16 + hex_val(s[1])) as u8,
            g: (hex_val(s[2]) * 16 + hex_val(s[3])) as u8,
            b: (hex_val(s[4]) * 16 + hex_val(s[5])) as u8,
        })
    } else {
        None
    }
}

/// Reads one hex digit, upper or lower case.
fn hex_digit(c: char) -> (r: Option<u8>)
    ensures
        r is Some <==> is_hex_digit(c),
        r is Some ==> r->0 == hex_val(c),
{
    let u = c as u32;
    if 48 <= u && u <= 57 {
        Some((u - 48) as u8)
    } else if 97 <= u && u <= 102 {
        Some((u - 87) as u8)
    } else if 65 <= u && u <= 70 {
        Some((u - 55) as u8)
    } else {
        None
    }
}

/// Parses a six-hex-digit color.
pub fn parse_color(s: &str) -> (r: Option<Rgb>)
    ensures
        r == color_result(s@),
{
    let n: usize = s.unicode_len();
    if n != 6 {
        return None;
    }
    let d0 = hex_digit(s.get_char(0));
    let d1 = hex_digit(s.get_char(1));
    let d2 = hex_digit(s.get_char(2));
    let d3 = hex_digit(s.get_char(3));
    let d4 = hex_digit(s.get_char(4));
    let d5 = hex_digit(s.get_char(5));
    match (d0, d1, d2, d3, d4, d5) {
        (Some(a), Some(b), Some(c), Some(d), Some(e), Some(f)) => Some(Rgb {
            r: a * 16 + b,
            g: c * 16 + d,
            b: e * 16 + f,
        }),
        _ => None,
    }
}

} // verus!
