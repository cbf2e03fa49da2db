//! The base64 encoding that image uploads to the vision model use.

use vstd::prelude::*;

verus! {

/// The character of the standard base64 alphabet for a 6-bit value.
pub open spec fn base64_char(v: int) -> char {
    if v < 26 {
        (65 + v) as char
    } else if v < 52 {
        (71 + v) as char
    } else if v < 62 {
        (v - 4) as char
    } else if v == 62 {
        '+'
    } else {
        '/'
    }
}

/// Padded base64 (RFC 4648, standard alphabet) of a byte sequence: every
/// three bytes become four characters; a final group of one or two bytes is
/// completed with `=`.
pub open spec fn base64_standard(s: Seq<u8>) -> Seq<char>
    decreases s.len(),
{
    let a = if s.len() > 0 { s[0] as int } else { 0 };
    let b = if s.len() > 1 { s[1] as int } else { 0 };
    let c = if s.len() > 2 { s[2] as int } else { 0 };
    if s.len() == 0 {
        Seq::empty()
    } else if s.len() == 1 {
        seq![base64_char(a / 4), base64_char((a % 4) * 16), '=', '=']
    } else if s.len() == 2 {
        seq![
            base64_char(a / 4),
            base64_char((a % 4) * 16 + b / 16),
            base64_char((b % 16) * 4),
            '=',
        ]
    } else {
        seq![
            base64_char(a / 4),
            base64_char((a % 4) * 16 + b / 16),
            base64_char((b % 16) * 4 + c / 64),
            base64_char(c % 64),
        ] + base64_standard(s.skip(3))
    }
}

} // verus!
