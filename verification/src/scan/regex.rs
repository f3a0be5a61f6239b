//! Regular expression literals.

use crate::classify::{is_ascii_letter, is_line_terminator};
use crate::token::{ErrorKind, Lexed, Scanned, SyntaxKind};
use crate::utf8::{boundary, char_at, decode_at, lemma_ascii_step, lemma_char_step, next_at};
use vstd::prelude::*;
use vstd::utf8::valid_utf8;

verus! {

/// Where the body of a regular expression ends that goes on at `i`, inside
/// a character class or not, and whether a `/` closes it. The closing `/`
/// is the first one that no backslash escapes and no character class holds;
/// the body ends behind it. A line terminator or the end of the input cuts
/// the body off, also behind a backslash.
pub open spec fn regex_body_end(s: Seq<u8>, i: int, in_class: bool) -> (int, bool)
    decreases s.len() - i,
{
    if !(0 <= i < s.len()) || is_line_terminator(char_at(s, i)) {
        (i, false)
    } else if s[i] == '\\' as u8 {
        if i + 1 < s.len() && !is_line_terminator(char_at(s, i + 1)) {
            regex_body_end(s, next_at(s, i + 1), in_class)
        } else {
            (i + 1, false)
        }
    } else if s[i] == '[' as u8 {
        regex_body_end(s, i + 1, true)
    } else if s[i] == ']' as u8 {
        regex_body_end(s, i + 1, false)
    } else if s[i] == '/' as u8 && !in_class {
        (i + 1, true)
    } else {
        regex_body_end(s, next_at(s, i), in_class)
    }
}

/// End of the maximal run of ASCII letters that starts at `i`: the flags of
/// a regular expression.
pub open spec fn flags_end(s: Seq<u8>, i: int) -> int
    decreases s.len() - i,
{
    if 0 <= i < s.len() && is_ascii_letter(s[i]) {
        flags_end(s, i + 1)
    } else {
        i
    }
}

/// The token of the regular expression whose opening `/` stands at `i`: the
/// body and the flags behind it, or an error token for a body that is cut
/// off.
pub open spec fn regex_token(s: Seq<u8>, i: int) -> Lexed {
    let (e, closed) = regex_body_end(s, i + 1, false);
    if closed {
        Lexed { kind: SyntaxKind::REGEX, end: flags_end(s, e), error: None }
    } else {
        Lexed { kind: SyntaxKind::ERROR_TOKEN, end: e, error: Some(ErrorKind::UnterminatedRegex) }
    }
}

/// The flags of a regular expression end on a character boundary inside
/// the text.
pub proof fn lemma_flags_end(s: Seq<u8>, i: int)
    requires
        valid_utf8(s),
        boundary(s, i),
    ensures
        i <= flags_end(s, i) <= s.len(),
        boundary(s, flags_end(s, i)),
    decreases s.len() - i,
{
    if i < s.len() && is_ascii_letter(s[i]) {
        lemma_ascii_step(s, i);
        lemma_flags_end(s, i + 1);
    }
}

/// The body of a regular expression ends on a character boundary inside
/// the text.
pub proof fn lemma_regex_body_end(s: Seq<u8>, i: int, in_class: bool)
    requires
        valid_utf8(s),
        boundary(s, i),
    ensures
        i <= regex_body_end(s, i, in_class).0 <= s.len(),
        boundary(s, regex_body_end(s, i, in_class).0),
    decreases s.len() - i,
{
    if i < s.len() && !is_line_terminator(char_at(s, i)) {
        lemma_char_step(s, i);
        if s[i] == '\\' as u8 {
            if i + 1 < s.len() && !is_line_terminator(char_at(s, i + 1)) {
                lemma_char_step(s, i + 1);
                lemma_regex_body_end(s, next_at(s, i + 1), in_class);
            }
        } else if s[i] == '[' as u8 {
            lemma_regex_body_end(s, i + 1, true);
        } else if s[i] == ']' as u8 {
            lemma_regex_body_end(s, i + 1, false);
        } else if s[i] == '/' as u8 && !in_class {
        } else {
            lemma_regex_body_end(s, next_at(s, i), in_class);
        }
    }
}

/// The token of a regular expression is not empty and ends on a character
/// boundary inside the text.
pub proof fn lemma_regex_token(s: Seq<u8>, i: int)
    requires
        valid_utf8(s),
        0 <= i < s.len(),
        s[i] == '/' as u8,
    ensures
        i < regex_token(s, i).end <= s.len(),
        boundary(s, regex_token(s, i).end),
{
    lemma_ascii_step(s, i);
    lemma_regex_body_end(s, i + 1, false);
    lemma_flags_end(s, regex_body_end(s, i + 1, false).0);
}

/// Skips the flags that start at `i`.
pub fn scan_flags(src: &[u8], i: usize) -> (end: usize)
    requires
        valid_utf8(src@),
        boundary(src@, i as int),
        i <= src.len(),
    ensures
        end == flags_end(src@, i as int),
        i <= end <= src.len(),
        boundary(src@, end as int),
{
    let mut j = i;
    while j < src.len() && is_ascii_letter(src[j])
        invariant
            valid_utf8(src@),
            boundary(src@, j as int),
            i <= j <= src.len(),
            flags_end(src@, j as int) == flags_end(src@, i as int),
        decreases src.len() - j,
    {
        proof {
            lemma_ascii_step(src@, j as int);
        }
        j = j + 1;
    }
    j
}

/// Skips the body of a regular expression from `i` on.
pub fn scan_regex_body(src: &[u8], i: usize) -> (r: (usize, bool))
    requires
        valid_utf8(src@),
        boundary(src@, i as int),
        i <= src.len(),
    ensures
        (r.0 as int, r.1) == regex_body_end(src@, i as int, false),
        i <= r.0 <= src.len(),
        boundary(src@, r.0 as int),
{
    let mut j = i;
    let mut in_class = false;
    while j < src.len()
        invariant
            valid_utf8(src@),
            boundary(src@, j as int),
            i <= j <= src.len(),
            regex_body_end(src@, j as int, in_class) == regex_body_end(src@, i as int, false),
        decreases src.len() - j,
    {
        let (c, w) = decode_at(src, j);
        let b = src[j];
        if is_line_terminator(c) {
            return (j, false);
        } else if b == '\\' as u8 {
            let escaped = j + w;
            if escaped >= src.len() {
                return (escaped, false);
            }
            let (c2, w2) = decode_at(src, escaped);
            if is_line_terminator(c2) {
                return (escaped, false);
            }
            j = escaped + w2;
        } else if b == '[' as u8 {
            in_class = true;
            j = j + w;
        } else if b == ']' as u8 {
            in_class = false;
            j = j + w;
        } else if b == '/' as u8 && !in_class {
            return (j + w, true);
        } else {
            j = j + w;
        }
    }
    (j, false)
}

/// Scans the regular expression whose opening `/` stands at `i`.
pub fn scan_regex(src: &[u8], i: usize) -> (r: Scanned)
    requires
        valid_utf8(src@),
        i < src.len(),
        src@[i as int] == '/' as u8,
    ensures
        r@ == regex_token(src@, i as int),
        i < r.end <= src.len(),
        boundary(src@, r.end as int),
{
    proof {
        lemma_ascii_step(src@, i as int);
    }
    let (e, closed) = scan_regex_body(src, i + 1);
    if closed {
        Scanned::good(SyntaxKind::REGEX, scan_flags(src, e))
    } else {
        Scanned::bad(ErrorKind::UnterminatedRegex, e)
    }
}

} // verus!
