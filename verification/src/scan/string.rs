//! String literals and their escape sequences.

use crate::classify::is_hex_digit;
use crate::scan::ident::{lemma_unicode_escape, read_unicode_escape, unicode_escape};
use crate::token::{ErrorKind, Lexed, Scanned, SyntaxKind};
use crate::utf8::{boundary, byte_is, is_at, lemma_ascii_step, lemma_char_step, next_at, step};
use vstd::prelude::*;
use vstd::utf8::valid_utf8;

verus! {

/// The escape sequence that starts with the backslash at `i`: the offset
/// behind it, and whether it is well-formed. `\x` takes exactly two
/// hexadecimal digits and `\u` a unicode escape; a backslash before anything
/// else escapes that one character, a carriage return together with the line
/// feed behind it. A malformed escape ends behind its `x` or `u`; a
/// backslash that ends the input is malformed.
pub open spec fn string_escape(s: Seq<u8>, i: int) -> (int, bool) {
    if !(0 <= i && i + 1 < s.len()) {
        (i + 1, false)
    } else if s[i + 1] == 'x' as u8 {
        if i + 4 <= s.len() && is_hex_digit(s[i + 2]) && is_hex_digit(s[i + 3]) {
            (i + 4, true)
        } else {
            (i + 2, false)
        }
    } else if s[i + 1] == 'u' as u8 {
        match unicode_escape(s, i) {
            Some((_, e)) => (e, true),
            None => (i + 2, false),
        }
    } else if s[i + 1] == '\r' as u8 && is_at(s, i + 2, '\n' as u8) {
        (i + 3, true)
    } else {
        (next_at(s, i + 1), true)
    }
}

/// Where the body of a string ends that goes on at `i`, whether a closing
/// `quote` ends it, and whether all its escapes are well-formed, given that
/// those before `i` are (`ok`). The body ends behind the closing quote, or
/// before a line feed or carriage return, or with the input.
pub open spec fn string_end(s: Seq<u8>, i: int, quote: u8, ok: bool) -> (int, bool, bool)
    decreases s.len() - i,
{
    if !(0 <= i < s.len()) {
        (i, false, ok)
    } else if s[i] == quote {
        (i + 1, true, ok)
    } else if s[i] == '\n' as u8 || s[i] == '\r' as u8 {
        (i, false, ok)
    } else if s[i] == '\\' as u8 {
        let (e, good) = string_escape(s, i);
        if i < e <= s.len() {
            string_end(s, e, quote, ok && good)
        } else {
            (i, false, false)
        }
    } else {
        string_end(s, next_at(s, i), quote, ok)
    }
}

/// The token of the string whose opening quote stands at `i`: a string if
/// it is closed and all its escapes are well-formed, else one error token
/// that spans all of it.
pub open spec fn string_token(s: Seq<u8>, i: int) -> Lexed {
    let (e, closed, ok) = string_end(s, i + 1, s[i], true);
    if !closed {
        Lexed {
            kind: SyntaxKind::ERROR_TOKEN,
            end: e,
            error: Some(ErrorKind::UnterminatedString),
        }
    } else if !ok {
        Lexed { kind: SyntaxKind::ERROR_TOKEN, end: e, error: Some(ErrorKind::InvalidEscape) }
    } else {
        Lexed { kind: SyntaxKind::STRING, end: e, error: None }
    }
}

/// An escape sequence ends on a character boundary inside the text, behind
/// its backslash.
pub proof fn lemma_string_escape(s: Seq<u8>, i: int)
    requires
        valid_utf8(s),
        is_at(s, i, '\\' as u8),
    ensures
        i < string_escape(s, i).0 <= s.len(),
        boundary(s, string_escape(s, i).0),
{
    lemma_ascii_step(s, i);
    if i + 1 < s.len() {
        if s[i + 1] == 'x' as u8 {
            lemma_ascii_step(s, i + 1);
            if i + 4 <= s.len() && is_hex_digit(s[i + 2]) && is_hex_digit(s[i + 3]) {
                lemma_ascii_step(s, i + 3);
            }
        } else if s[i + 1] == 'u' as u8 {
            lemma_ascii_step(s, i + 1);
            lemma_unicode_escape(s, i);
        } else if s[i + 1] == '\r' as u8 && is_at(s, i + 2, '\n' as u8) {
            lemma_ascii_step(s, i + 2);
        } else {
            lemma_char_step(s, i + 1);
        }
    }
}

/// The body of a string ends on a character boundary inside the text.
pub proof fn lemma_string_end(s: Seq<u8>, i: int, quote: u8, ok: bool)
    requires
        valid_utf8(s),
        boundary(s, i),
        quote < 0x80,
    ensures
        i <= string_end(s, i, quote, ok).0 <= s.len(),
        boundary(s, string_end(s, i, quote, ok).0),
    decreases s.len() - i,
{
    if i < s.len() {
        if s[i] == quote {
            lemma_ascii_step(s, i);
        } else if s[i] == '\n' as u8 || s[i] == '\r' as u8 {
        } else if s[i] == '\\' as u8 {
            lemma_string_escape(s, i);
            let (e, good) = string_escape(s, i);
            lemma_string_end(s, e, quote, ok && good);
        } else {
            lemma_char_step(s, i);
            lemma_string_end(s, next_at(s, i), quote, ok);
        }
    }
}

/// One malformed escape spoils the whole string, and nothing else: where
/// the string ends and whether it is closed does not depend on its escapes,
/// and its escapes are all well-formed only if those before `i` are (`ok`)
/// and those from `i` on are.
pub proof fn lemma_escapes_taint(s: Seq<u8>, i: int, quote: u8, ok: bool)
    ensures
        string_end(s, i, quote, ok).0 == string_end(s, i, quote, true).0,
        string_end(s, i, quote, ok).1 == string_end(s, i, quote, true).1,
        string_end(s, i, quote, ok).2 == (ok && string_end(s, i, quote, true).2),
    decreases s.len() - i,
{
    if 0 <= i < s.len() && s[i] != quote && !(s[i] == '\n' as u8 || s[i] == '\r' as u8) {
        if s[i] == '\\' as u8 {
            let (e, good) = string_escape(s, i);
            if i < e <= s.len() {
                lemma_escapes_taint(s, e, quote, ok && good);
                lemma_escapes_taint(s, e, quote, good);
            }
        } else {
            lemma_escapes_taint(s, next_at(s, i), quote, ok);
        }
    }
}

/// The token of a string is not empty and ends on a character boundary
/// inside the text.
pub proof fn lemma_string_token(s: Seq<u8>, i: int)
    requires
        valid_utf8(s),
        0 <= i < s.len(),
        s[i] < 0x80,
    ensures
        i < string_token(s, i).end <= s.len(),
        boundary(s, string_token(s, i).end),
{
    lemma_ascii_step(s, i);
    lemma_string_end(s, i + 1, s[i], true);
}

/// Reads the escape sequence whose backslash stands at `i`.
pub fn scan_string_escape(src: &[u8], i: usize) -> (r: (usize, bool))
    requires
        valid_utf8(src@),
        is_at(src@, i as int, '\\' as u8),
    ensures
        (r.0 as int, r.1) == string_escape(src@, i as int),
        i < r.0 <= src.len(),
        boundary(src@, r.0 as int),
{
    let n = src.len();
    proof {
        lemma_ascii_step(src@, i as int);
    }
    if n - i < 2 {
        return (i + 1, false);
    }
    let b = src[i + 1];
    if b == 'x' as u8 {
        proof {
            lemma_ascii_step(src@, i + 1);
        }
        if n - i >= 4 && is_hex_digit(src[i + 2]) && is_hex_digit(src[i + 3]) {
            (step(src, i + 3), true)
        } else {
            (i + 2, false)
        }
    } else if b == 'u' as u8 {
        proof {
            lemma_ascii_step(src@, i + 1);
        }
        match read_unicode_escape(src, i) {
            Some((_, e)) => (e, true),
            None => (i + 2, false),
        }
    } else if b == '\r' as u8 && byte_is(src, i + 2, '\n' as u8) {
        (step(src, i + 2), true)
    } else {
        (step(src, i + 1), true)
    }
}

/// Scans the string whose opening quote stands at `i`.
pub fn scan_string(src: &[u8], i: usize) -> (r: Scanned)
    requires
        valid_utf8(src@),
        boundary(src@, i as int),
        i < src.len(),
        src@[i as int] < 0x80,
    ensures
        r@ == string_token(src@, i as int),
        i < r.end <= src.len(),
        boundary(src@, r.end as int),
{
    let quote = src[i];
    let mut j = step(src, i);
    let mut ok = true;
    while j < src.len()
        invariant
            valid_utf8(src@),
            boundary(src@, j as int),
            i < j <= src.len(),
            string_end(src@, j as int, quote, ok) == string_end(src@, i + 1, quote, true),
            quote == src@[i as int],
            quote < 0x80,
        decreases src.len() - j,
    {
        let b = src[j];
        if b == quote {
            let end = step(src, j);
            return if ok {
                Scanned::good(SyntaxKind::STRING, end)
            } else {
                Scanned::bad(ErrorKind::InvalidEscape, end)
            };
        } else if b == '\n' as u8 || b == '\r' as u8 {
            return Scanned::bad(ErrorKind::UnterminatedString, j);
        } else if b == '\\' as u8 {
            let (e, good) = scan_string_escape(src, j);
            ok = ok && good;
            j = e;
        } else {
            j = step(src, j);
        }
    }
    Scanned::bad(ErrorKind::UnterminatedString, j)
}

} // verus!
