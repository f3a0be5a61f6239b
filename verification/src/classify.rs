//! Character classes of the tokenizer. Every function is total: it answers
//! for each code point, or for each byte.

use crate::tables::{
    lemma_tables_hold_no_whitespace, lookup_id_part_only, lookup_id_start, unicode_id_part_only,
    unicode_id_start,
};
use vstd::prelude::*;

verus! {

/// Line feed, carriage return, line separator or paragraph separator.
#[verifier::allow_in_spec]
pub fn is_line_terminator(c: u32) -> bool
    returns
        (c == 0x0a || c == 0x0d || c == 0x2028 || c == 0x2029),
{
    c == 0x0a || c == 0x0d || c == 0x2028 || c == 0x2029
}

/// The whitespace that is legal between tokens but error-prone: line
/// tabulation, form feed, next line, the no-break and typographic spaces,
/// the line and paragraph separators and the zero-width marks.
#[verifier::allow_in_spec]
pub fn is_irregular_whitespace(c: u32) -> bool
    returns
        (c == 0x0b || c == 0x0c || c == 0x85 || c == 0xa0 || c == 0x1680 || c == 0x180e || (0x2000
            <= c && c <= 0x200b) || c == 0x2028 || c == 0x2029 || c == 0x202f || c == 0x205f || c
            == 0x3000 || c == 0xfeff),
{
    if c < 0x1680 {
        c == 0x0b || c == 0x0c || c == 0x85 || c == 0xa0
    } else if c < 0x2000 {
        c == 0x1680 || c == 0x180e
    } else if c <= 0x200b {
        true
    } else {
        c == 0x2028 || c == 0x2029 || c == 0x202f || c == 0x205f || c == 0x3000 || c == 0xfeff
    }
}

/// Tab, line feed, carriage return, space, or irregular whitespace.
#[verifier::allow_in_spec]
pub fn is_whitespace(c: u32) -> bool
    returns
        (c == 0x09 || c == 0x0a || c == 0x0d || c == 0x20 || is_irregular_whitespace(c)),
{
    if c < 0x80 {
        (0x09 <= c && c <= 0x0d) || c == 0x20
    } else {
        is_irregular_whitespace(c)
    }
}

/// An ASCII letter.
#[verifier::allow_in_spec]
pub fn is_ascii_letter(b: u8) -> bool
    returns
        (('a' as u8 <= b && b <= 'z' as u8) || ('A' as u8 <= b && b <= 'Z' as u8)),
{
    ('a' as u8 <= b && b <= 'z' as u8) || ('A' as u8 <= b && b <= 'Z' as u8)
}

/// A decimal digit.
#[verifier::allow_in_spec]
pub fn is_decimal_digit(b: u8) -> bool
    returns
        ('0' as u8 <= b && b <= '9' as u8),
{
    '0' as u8 <= b && b <= '9' as u8
}

/// A hexadecimal digit, in either case.
#[verifier::allow_in_spec]
pub fn is_hex_digit(b: u8) -> bool
    returns
        (is_decimal_digit(b) || ('a' as u8 <= b && b <= 'f' as u8) || ('A' as u8 <= b && b
            <= 'F' as u8)),
{
    is_decimal_digit(b) || ('a' as u8 <= b && b <= 'f' as u8) || ('A' as u8 <= b && b <= 'F' as u8)
}

/// A digit of the base `radix`. No byte is a digit of a base other than 2,
/// 8, 10 and 16.
#[verifier::allow_in_spec]
pub fn is_digit_in(b: u8, radix: u8) -> bool
    returns
        (if radix == 2 {
            b == '0' as u8 || b == '1' as u8
        } else if radix == 8 {
            '0' as u8 <= b && b <= '7' as u8
        } else if radix == 10 {
            is_decimal_digit(b)
        } else {
            radix == 16 && is_hex_digit(b)
        }),
{
    if radix == 2 {
        b == '0' as u8 || b == '1' as u8
    } else if radix == 8 {
        '0' as u8 <= b && b <= '7' as u8
    } else if radix == 10 {
        is_decimal_digit(b)
    } else {
        radix == 16 && is_hex_digit(b)
    }
}

/// The value of a hexadecimal digit, 0 for any other byte.
pub open spec fn hex_value(b: u8) -> u32 {
    if is_decimal_digit(b) {
        (b - '0' as u8) as u32
    } else if 'a' as u8 <= b && b <= 'f' as u8 {
        (b - 'a' as u8 + 10) as u32
    } else if 'A' as u8 <= b && b <= 'F' as u8 {
        (b - 'A' as u8 + 10) as u32
    } else {
        0u32
    }
}

/// Computes the value of a hexadecimal digit.
pub fn hex_digit_value(b: u8) -> (v: u32)
    ensures
        v == hex_value(b),
        v <= 15,
{
    if is_decimal_digit(b) {
        (b - '0' as u8) as u32
    } else if 'a' as u8 <= b && b <= 'f' as u8 {
        (b - 'a' as u8 + 10) as u32
    } else if 'A' as u8 <= b && b <= 'F' as u8 {
        (b - 'A' as u8 + 10) as u32
    } else {
        0u32
    }
}

/// A single or a double quote.
#[verifier::allow_in_spec]
pub fn is_quote(b: u8) -> bool
    returns
        (b == '"' as u8 || b == '\'' as u8),
{
    b == '"' as u8 || b == '\'' as u8
}

/// The code points that can start an identifier: `$`, `_`, the ASCII letters
/// and the other code points with the Unicode property `ID_Start`.
pub open spec fn is_id_start(c: u32) -> bool {
    if c < 0x80 {
        c == '$' as u32 || c == '_' as u32 || is_ascii_letter(c as u8)
    } else {
        unicode_id_start(c)
    }
}

/// The code points that can continue an identifier: those that can start
/// one, the ASCII digits, the other code points with the Unicode property
/// `ID_Continue`, and the zero-width joiner and non-joiner.
pub open spec fn is_id_continue(c: u32) -> bool {
    if c < 0x80 {
        is_id_start(c) || is_decimal_digit(c as u8)
    } else {
        unicode_id_start(c) || unicode_id_part_only(c)
    }
}

/// Whitespace and identifiers share no character: a character that can
/// start or continue an identifier always ends a run of whitespace, and the
/// other way round.
pub proof fn lemma_whitespace_is_no_identifier(c: u32)
    requires
        is_whitespace(c),
    ensures
        !is_id_start(c),
        !is_id_continue(c),
{
    if c >= 0x80 {
        lemma_tables_hold_no_whitespace(c);
    }
}

/// Whether `c` can start an identifier.
pub fn id_start(c: u32) -> (r: bool)
    ensures
        r == is_id_start(c),
{
    if c < 0x80 {
        let b = c as u8;
        b == '$' as u8 || b == '_' as u8 || is_ascii_letter(b)
    } else {
        lookup_id_start(c)
    }
}

/// Whether `c` can continue an identifier.
pub fn id_continue(c: u32) -> (r: bool)
    ensures
        r == is_id_continue(c),
{
    if c < 0x80 {
        let b = c as u8;
        b == '$' as u8 || b == '_' as u8 || is_ascii_letter(b) || is_decimal_digit(b)
    } else {
        lookup_id_start(c) || lookup_id_part_only(c)
    }
}

} // verus!
