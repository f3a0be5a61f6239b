//! The token at an offset: which sub-scanner the first character calls for,
//! and what that scanner finds.

use crate::classify::{is_decimal_digit, is_quote, is_whitespace};
use crate::scan::ident::{
    hex_run_end, id_start_end, ident_end, keyword_of, lemma_hex_run_end, lemma_id_start_end,
    lemma_ident_end, lemma_unicode_escape, read_unicode_escape, scan_hex_run, scan_id_start,
    scan_ident, unicode_escape, word_kind,
};
use crate::scan::number::{lemma_number_token, number_starts, number_token, scan_number};
use crate::scan::punct::{lemma_longest_match, punctuator_at, punctuator_len, scan_punctuator};
use crate::scan::regex::{lemma_regex_token, regex_token, scan_regex};
use crate::scan::string::{lemma_string_token, scan_string, string_token};
use crate::scan::template::{lemma_template_token, scan_template, template_token};
use crate::scan::trivia::{
    block_comment_end, lemma_block_comment_end, lemma_line_end, lemma_whitespace_end, line_end,
    scan_block_comment, scan_line, scan_whitespace, whitespace_end,
};
use crate::token::{ErrorKind, Lexed, Scanned, SyntaxKind};
use crate::utf8::{
    boundary, byte_is, char_at, decode_at, is_at, lemma_ascii_step, lemma_char_step, next_at, step,
};
use vstd::prelude::*;
use vstd::utf8::valid_utf8;

verus! {

/// The token that starts with the `/` at `i`: a line comment up to the end
/// of the line, a block comment, and otherwise a regular expression where
/// one may stand, else a division operator.
pub open spec fn slash_token(s: Seq<u8>, i: int, regex_allowed: bool) -> Lexed {
    if is_at(s, i + 1, '/' as u8) {
        Lexed { kind: SyntaxKind::COMMENT, end: line_end(s, i + 2), error: None }
    } else if is_at(s, i + 1, '*' as u8) {
        let (e, closed) = block_comment_end(s, i + 2);
        Lexed {
            kind: SyntaxKind::COMMENT,
            end: e,
            error: if closed {
                None
            } else {
                Some(ErrorKind::UnterminatedComment)
            },
        }
    } else if regex_allowed {
        regex_token(s, i)
    } else if is_at(s, i + 1, '=' as u8) {
        Lexed { kind: SyntaxKind::SLASHEQ, end: i + 2, error: None }
    } else {
        Lexed { kind: SyntaxKind::SLASH, end: i + 1, error: None }
    }
}

/// End of the error token that starts with the backslash at `i`, where no
/// identifier starts: behind the unicode escape if it is well-formed, else
/// behind what there is of one (the `u`, the digits, the braces), else
/// behind the backslash.
pub open spec fn stray_escape_end(s: Seq<u8>, i: int) -> int {
    match unicode_escape(s, i) {
        Some((_, e)) => e,
        None => if !is_at(s, i + 1, 'u' as u8) {
            i + 1
        } else if is_at(s, i + 2, '{' as u8) {
            let e = hex_run_end(s, i + 3);
            if is_at(s, e, '}' as u8) {
                e + 1
            } else {
                e
            }
        } else {
            hex_run_end(s, i + 2)
        },
    }
}

/// The token at offset `i` outside the text of template literals. The first
/// character decides: whitespace starts a run of whitespace, a quote a
/// string, a digit (or a point before a digit) a number, `/` a comment, a
/// regular expression or a division, a backtick a template literal, an
/// identifier start a word. A backslash that starts no identifier, and a
/// character that starts nothing at all, are error tokens.
pub open spec fn plain_token(s: Seq<u8>, i: int, regex_allowed: bool) -> Lexed {
    if is_whitespace(char_at(s, i)) {
        Lexed { kind: SyntaxKind::WHITESPACE, end: whitespace_end(s, i), error: None }
    } else if is_quote(s[i]) {
        string_token(s, i)
    } else if number_starts(s, i) {
        number_token(s, i)
    } else if s[i] == '/' as u8 {
        slash_token(s, i, regex_allowed)
    } else if s[i] == '`' as u8 {
        Lexed { kind: SyntaxKind::BACKTICK, end: i + 1, error: None }
    } else if i < id_start_end(s, i) {
        let e = ident_end(s, id_start_end(s, i));
        Lexed { kind: word_kind(s.subrange(i, e)), end: e, error: None }
    } else if s[i] == '\\' as u8 {
        Lexed {
            kind: SyntaxKind::ERROR_TOKEN,
            end: stray_escape_end(s, i),
            error: Some(ErrorKind::InvalidEscape),
        }
    } else {
        match punctuator_at(s, i) {
            Some((kind, e)) => Lexed { kind, end: e, error: None },
            None => Lexed {
                kind: SyntaxKind::ERROR_TOKEN,
                end: next_at(s, i),
                error: Some(ErrorKind::UnexpectedCharacter),
            },
        }
    }
}

/// The token at offset `i`: inside the text of a template literal a piece
/// of that literal, else a plain token.
#[verifier::opaque]
pub open spec fn token_in(s: Seq<u8>, i: int, in_template: bool, regex_allowed: bool) -> Lexed {
    if in_template {
        template_token(s, i)
    } else {
        plain_token(s, i, regex_allowed)
    }
}

/// The token that starts with a `/` is not empty and ends on a character
/// boundary inside the text.
pub proof fn lemma_slash_token(s: Seq<u8>, i: int, regex_allowed: bool)
    requires
        valid_utf8(s),
        0 <= i < s.len(),
        s[i] == '/' as u8,
    ensures
        i < slash_token(s, i, regex_allowed).end <= s.len(),
        boundary(s, slash_token(s, i, regex_allowed).end),
{
    lemma_ascii_step(s, i);
    if is_at(s, i + 1, '/' as u8) {
        lemma_ascii_step(s, i + 1);
        lemma_line_end(s, i + 2);
    } else if is_at(s, i + 1, '*' as u8) {
        lemma_ascii_step(s, i + 1);
        lemma_block_comment_end(s, i + 2);
    } else if regex_allowed {
        lemma_regex_token(s, i);
    } else if is_at(s, i + 1, '=' as u8) {
        lemma_ascii_step(s, i + 1);
    }
}

/// The error token of a stray backslash is not empty and ends on a
/// character boundary inside the text.
pub proof fn lemma_stray_escape_end(s: Seq<u8>, i: int)
    requires
        valid_utf8(s),
        0 <= i < s.len(),
        s[i] == '\\' as u8,
    ensures
        i < stray_escape_end(s, i) <= s.len(),
        boundary(s, stray_escape_end(s, i)),
{
    lemma_ascii_step(s, i);
    lemma_unicode_escape(s, i);
    if unicode_escape(s, i) is None && is_at(s, i + 1, 'u' as u8) {
        lemma_ascii_step(s, i + 1);
        if is_at(s, i + 2, '{' as u8) {
            lemma_ascii_step(s, i + 2);
            lemma_hex_run_end(s, i + 3);
            let e = hex_run_end(s, i + 3);
            if is_at(s, e, '}' as u8) {
                lemma_ascii_step(s, e);
            }
        } else {
            lemma_hex_run_end(s, i + 2);
        }
    }
}

/// Every token outside the text of template literals is at least one byte
/// long, ends on a character boundary inside the text, and is no end of
/// file.
pub proof fn lemma_plain_token(s: Seq<u8>, i: int, regex_allowed: bool)
    requires
        valid_utf8(s),
        boundary(s, i),
        i < s.len(),
    ensures
        i < plain_token(s, i, regex_allowed).end <= s.len(),
        boundary(s, plain_token(s, i, regex_allowed).end),
        plain_token(s, i, regex_allowed).kind != SyntaxKind::EOF,
{
    lemma_char_step(s, i);
    if is_whitespace(char_at(s, i)) {
        lemma_whitespace_end(s, i);
    } else if is_quote(s[i]) {
        lemma_string_token(s, i);
    } else if number_starts(s, i) {
        lemma_number_token(s, i);
    } else if s[i] == '/' as u8 {
        lemma_slash_token(s, i, regex_allowed);
    } else if s[i] == '`' as u8 {
    } else if i < id_start_end(s, i) {
        lemma_id_start_end(s, i);
        lemma_ident_end(s, id_start_end(s, i));
    } else if s[i] == '\\' as u8 {
        lemma_stray_escape_end(s, i);
    } else {
        lemma_longest_match(s, i);
        if punctuator_len(s, i) > 0 {
            lemma_ascii_step(s, i + punctuator_len(s, i) - 1);
        }
    }
}

/// Every token is at least one byte long, ends on a character boundary
/// inside the text, and is no end of file. So the tokenizer always moves
/// on, and never into a character.
pub proof fn lemma_token_in(s: Seq<u8>, i: int, in_template: bool, regex_allowed: bool)
    requires
        valid_utf8(s),
        boundary(s, i),
        i < s.len(),
    ensures
        i < token_in(s, i, in_template, regex_allowed).end <= s.len(),
        boundary(s, token_in(s, i, in_template, regex_allowed).end),
        token_in(s, i, in_template, regex_allowed).kind != SyntaxKind::EOF,
{
    reveal(token_in);
    if in_template {
        lemma_template_token(s, i);
    } else {
        lemma_plain_token(s, i, regex_allowed);
    }
}

/// Scans the token that starts with the `/` at `i`.
pub fn scan_slash(src: &[u8], i: usize, regex_allowed: bool) -> (r: Scanned)
    requires
        valid_utf8(src@),
        i < src.len(),
        src@[i as int] == '/' as u8,
    ensures
        r@ == slash_token(src@, i as int, regex_allowed),
        i < r.end <= src.len(),
        boundary(src@, r.end as int),
{
    proof {
        lemma_ascii_step(src@, i as int);
    }
    if byte_is(src, i + 1, '/' as u8) {
        Scanned::good(SyntaxKind::COMMENT, scan_line(src, step(src, i + 1)))
    } else if byte_is(src, i + 1, '*' as u8) {
        let (end, closed) = scan_block_comment(src, step(src, i + 1));
        Scanned {
            kind: SyntaxKind::COMMENT,
            end,
            error: if closed {
                None
            } else {
                Some(ErrorKind::UnterminatedComment)
            },
        }
    } else if regex_allowed {
        scan_regex(src, i)
    } else if byte_is(src, i + 1, '=' as u8) {
        Scanned::good(SyntaxKind::SLASHEQ, step(src, i + 1))
    } else {
        Scanned::good(SyntaxKind::SLASH, i + 1)
    }
}

/// Finds the end of the error token that starts with the backslash at `i`.
pub fn scan_stray_escape(src: &[u8], i: usize) -> (end: usize)
    requires
        valid_utf8(src@),
        i < src.len(),
        src@[i as int] == '\\' as u8,
    ensures
        end == stray_escape_end(src@, i as int),
        i < end <= src.len(),
        boundary(src@, end as int),
{
    proof {
        lemma_ascii_step(src@, i as int);
    }
    match read_unicode_escape(src, i) {
        Some((_, e)) => e,
        None => {
            if !byte_is(src, i + 1, 'u' as u8) {
                i + 1
            } else if byte_is(src, i + 2, '{' as u8) {
                proof {
                    lemma_ascii_step(src@, i + 1);
                }
                let e = scan_hex_run(src, step(src, i + 2));
                if byte_is(src, e, '}' as u8) {
                    step(src, e)
                } else {
                    e
                }
            } else {
                scan_hex_run(src, step(src, i + 1))
            }
        },
    }
}

/// Scans the token at offset `i` outside the text of template literals.
pub fn scan_plain(src: &[u8], i: usize, regex_allowed: bool) -> (r: Scanned)
    requires
        valid_utf8(src@),
        boundary(src@, i as int),
        i < src.len(),
    ensures
        r@ == plain_token(src@, i as int, regex_allowed),
        i < r.end <= src.len(),
        boundary(src@, r.end as int),
{
    let (c, w) = decode_at(src, i);
    let b = src[i];
    if is_whitespace(c) {
        return Scanned::good(SyntaxKind::WHITESPACE, scan_whitespace(src, i));
    }
    if is_quote(b) {
        return scan_string(src, i);
    }
    if is_decimal_digit(b) || (b == '.' as u8 && src.len() - i > 1 && is_decimal_digit(
        src[i + 1],
    )) {
        return scan_number(src, i);
    }
    if b == '/' as u8 {
        return scan_slash(src, i, regex_allowed);
    }
    if b == '`' as u8 {
        return Scanned::good(SyntaxKind::BACKTICK, i + w);
    }
    let first = scan_id_start(src, i);
    if i < first {
        let end = scan_ident(src, first);
        let kind = match keyword_of(src, i, end) {
            Some(kind) => kind,
            None => SyntaxKind::IDENT,
        };
        return Scanned::good(kind, end);
    }
    if b == '\\' as u8 {
        return Scanned::bad(ErrorKind::InvalidEscape, scan_stray_escape(src, i));
    }
    match scan_punctuator(src, i) {
        Some((kind, end)) => Scanned::good(kind, end),
        None => Scanned::bad(ErrorKind::UnexpectedCharacter, i + w),
    }
}

/// Scans the token at offset `i`.
pub fn scan_token(src: &[u8], i: usize, in_template: bool, regex_allowed: bool) -> (r: Scanned)
    requires
        valid_utf8(src@),
        boundary(src@, i as int),
        i < src.len(),
    ensures
        r@ == token_in(src@, i as int, in_template, regex_allowed),
        i < r.end <= src.len(),
        boundary(src@, r.end as int),
{
    reveal(token_in);
    if in_template {
        scan_template(src, i)
    } else {
        scan_plain(src, i, regex_allowed)
    }
}

} // verus!
