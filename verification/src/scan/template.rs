//! Template literals: the text between the backticks.

use crate::token::{ErrorKind, Lexed, Scanned, SyntaxKind};
use crate::utf8::{boundary, byte_is, is_at, lemma_ascii_step, lemma_char_step, next_at, step};
use vstd::prelude::*;
use vstd::utf8::valid_utf8;

verus! {

/// Whether the text at `i` opens an interpolation: `${`.
pub open spec fn opens_interpolation(s: Seq<u8>, i: int) -> bool {
    is_at(s, i, '$' as u8) && is_at(s, i + 1, '{' as u8)
}

/// Offset behind the backslash at `i` and the character that it escapes.
pub open spec fn template_escape_end(s: Seq<u8>, i: int) -> int {
    if 0 <= i && i + 1 < s.len() {
        next_at(s, i + 1)
    } else {
        i + 1
    }
}

/// End of the literal text that goes on at `i`: the offset of the next
/// backtick or `${` that no backslash escapes, or the end of the input.
pub open spec fn chunk_end(s: Seq<u8>, i: int) -> int
    decreases s.len() - i,
{
    if !(0 <= i < s.len()) {
        i
    } else if s[i] == '`' as u8 || opens_interpolation(s, i) {
        i
    } else if s[i] == '\\' as u8 {
        let e = template_escape_end(s, i);
        if i < e <= s.len() {
            chunk_end(s, e)
        } else {
            i
        }
    } else {
        chunk_end(s, next_at(s, i))
    }
}

/// The token at `i` inside a template literal: the closing backtick, the
/// `${` of an interpolation, or a chunk of literal text. A chunk that the
/// input cuts off is a chunk still, with an error.
pub open spec fn template_token(s: Seq<u8>, i: int) -> Lexed {
    if is_at(s, i, '`' as u8) {
        Lexed { kind: SyntaxKind::BACKTICK, end: i + 1, error: None }
    } else if opens_interpolation(s, i) {
        Lexed { kind: SyntaxKind::DOLLARCURLY, end: i + 2, error: None }
    } else {
        let e = chunk_end(s, i);
        Lexed {
            kind: SyntaxKind::TEMPLATE_CHUNK,
            end: e,
            error: if e >= s.len() {
                Some(ErrorKind::UnterminatedTemplate)
            } else {
                None
            },
        }
    }
}

/// A chunk of literal text ends on a character boundary inside the text,
/// and behind its first character unless that closes the literal or opens
/// an interpolation.
pub proof fn lemma_chunk_end(s: Seq<u8>, i: int)
    requires
        valid_utf8(s),
        boundary(s, i),
    ensures
        i <= chunk_end(s, i) <= s.len(),
        boundary(s, chunk_end(s, i)),
        i < s.len() && s[i] != '`' as u8 && !opens_interpolation(s, i) ==> i < chunk_end(s, i),
    decreases s.len() - i,
{
    if i < s.len() && !(s[i] == '`' as u8 || opens_interpolation(s, i)) {
        lemma_char_step(s, i);
        if s[i] == '\\' as u8 {
            if i + 1 < s.len() {
                lemma_char_step(s, i + 1);
            }
            lemma_chunk_end(s, template_escape_end(s, i));
        } else {
            lemma_chunk_end(s, next_at(s, i));
        }
    }
}

/// A token inside a template literal is not empty and ends on a character
/// boundary inside the text.
pub proof fn lemma_template_token(s: Seq<u8>, i: int)
    requires
        valid_utf8(s),
        boundary(s, i),
        i < s.len(),
    ensures
        i < template_token(s, i).end <= s.len(),
        boundary(s, template_token(s, i).end),
{
    if is_at(s, i, '`' as u8) {
        lemma_ascii_step(s, i);
    } else if opens_interpolation(s, i) {
        lemma_ascii_step(s, i);
        lemma_ascii_step(s, i + 1);
    } else {
        lemma_chunk_end(s, i);
    }
}

/// Whether an interpolation opens at `i`.
pub fn at_interpolation(src: &[u8], i: usize) -> (r: bool)
    ensures
        r == opens_interpolation(src@, i as int),
{
    byte_is(src, i, '$' as u8) && byte_is(src, i + 1, '{' as u8)
}

/// Skips the literal text that goes on at `i`.
pub fn scan_chunk(src: &[u8], i: usize) -> (end: usize)
    requires
        valid_utf8(src@),
        boundary(src@, i as int),
    ensures
        end == chunk_end(src@, i as int),
        i <= end <= src.len(),
        i < src.len() && src@[i as int] != '`' as u8 && !opens_interpolation(src@, i as int) ==> i
            < end,
        boundary(src@, end as int),
{
    let mut j = i;
    while j < src.len()
        invariant
            valid_utf8(src@),
            boundary(src@, j as int),
            i <= j <= src.len(),
            chunk_end(src@, j as int) == chunk_end(src@, i as int),
        decreases src.len() - j,
    {
        let b = src[j];
        if b == '`' as u8 || at_interpolation(src, j) {
            return j;
        } else if b == '\\' as u8 {
            let escaped = step(src, j);
            j = if escaped < src.len() {
                step(src, escaped)
            } else {
                escaped
            };
        } else {
            j = step(src, j);
        }
    }
    j
}

/// Scans the token at `i` inside a template literal.
pub fn scan_template(src: &[u8], i: usize) -> (r: Scanned)
    requires
        valid_utf8(src@),
        boundary(src@, i as int),
        i < src.len(),
    ensures
        r@ == template_token(src@, i as int),
        i < r.end <= src.len(),
        boundary(src@, r.end as int),
{
    if src[i] == '`' as u8 {
        Scanned::good(SyntaxKind::BACKTICK, step(src, i))
    } else if at_interpolation(src, i) {
        let brace = step(src, i);
        Scanned::good(SyntaxKind::DOLLARCURLY, step(src, brace))
    } else {
        let end = scan_chunk(src, i);
        if end >= src.len() {
            Scanned {
                kind: SyntaxKind::TEMPLATE_CHUNK,
                end,
                error: Some(ErrorKind::UnterminatedTemplate),
            }
        } else {
            Scanned::good(SyntaxKind::TEMPLATE_CHUNK, end)
        }
    }
}

} // verus!
