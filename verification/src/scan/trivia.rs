//! Whitespace and comments.

use crate::classify::{is_line_terminator, is_whitespace};
use crate::utf8::{
    boundary, byte_is, char_at, decode_at, is_at, lemma_ascii_step, lemma_char_step, next_at, step,
};
use vstd::prelude::*;
use vstd::utf8::valid_utf8;

verus! {

/// End of the maximal run of whitespace characters that starts at `i`.
pub open spec fn whitespace_end(s: Seq<u8>, i: int) -> int
    decreases s.len() - i,
{
    if 0 <= i < s.len() && is_whitespace(char_at(s, i)) {
        whitespace_end(s, next_at(s, i))
    } else {
        i
    }
}

/// Offset of the first line terminator at or behind `i`, or the end of the
/// input where there is none.
pub open spec fn line_end(s: Seq<u8>, i: int) -> int
    decreases s.len() - i,
{
    if 0 <= i < s.len() && !is_line_terminator(char_at(s, i)) {
        line_end(s, next_at(s, i))
    } else {
        i
    }
}

/// Where a block comment whose text starts at `i` ends, and whether it is
/// closed: just behind the first `*/`, or at the end of the input.
pub open spec fn block_comment_end(s: Seq<u8>, i: int) -> (int, bool)
    decreases s.len() - i,
{
    if 0 <= i < s.len() {
        if s[i] == '*' as u8 && is_at(s, i + 1, '/' as u8) {
            (i + 2, true)
        } else {
            block_comment_end(s, next_at(s, i))
        }
    } else {
        (i, false)
    }
}

/// A run of whitespace ends on a character boundary inside the text,
/// behind its first character if it has one, and where the text ends or
/// the next character is no whitespace: the run is maximal.
pub proof fn lemma_whitespace_end(s: Seq<u8>, i: int)
    requires
        valid_utf8(s),
        boundary(s, i),
    ensures
        i <= whitespace_end(s, i) <= s.len(),
        boundary(s, whitespace_end(s, i)),
        i < s.len() && is_whitespace(char_at(s, i)) ==> i < whitespace_end(s, i),
        whitespace_end(s, i) == s.len() || !is_whitespace(char_at(s, whitespace_end(s, i))),
    decreases s.len() - i,
{
    if i < s.len() && is_whitespace(char_at(s, i)) {
        lemma_char_step(s, i);
        lemma_whitespace_end(s, next_at(s, i));
    }
}

/// A line ends on a character boundary inside the text: where the text
/// ends, or before a line terminator.
pub proof fn lemma_line_end(s: Seq<u8>, i: int)
    requires
        valid_utf8(s),
        boundary(s, i),
    ensures
        i <= line_end(s, i) <= s.len(),
        boundary(s, line_end(s, i)),
        line_end(s, i) == s.len() || is_line_terminator(char_at(s, line_end(s, i))),
    decreases s.len() - i,
{
    if i < s.len() && !is_line_terminator(char_at(s, i)) {
        lemma_char_step(s, i);
        lemma_line_end(s, next_at(s, i));
    }
}

/// A block comment ends on a character boundary inside the text.
pub proof fn lemma_block_comment_end(s: Seq<u8>, i: int)
    requires
        valid_utf8(s),
        boundary(s, i),
    ensures
        i <= block_comment_end(s, i).0 <= s.len(),
        boundary(s, block_comment_end(s, i).0),
    decreases s.len() - i,
{
    if i < s.len() {
        if s[i] == '*' as u8 && is_at(s, i + 1, '/' as u8) {
            lemma_ascii_step(s, i);
            lemma_ascii_step(s, i + 1);
        } else {
            lemma_char_step(s, i);
            lemma_block_comment_end(s, next_at(s, i));
        }
    }
}

/// Skips the run of whitespace that starts at `i`.
pub fn scan_whitespace(src: &[u8], i: usize) -> (end: usize)
    requires
        valid_utf8(src@),
        boundary(src@, i as int),
    ensures
        end == whitespace_end(src@, i as int),
        i <= end <= src.len(),
        i < src.len() && is_whitespace(char_at(src@, i as int)) ==> i < end,
        boundary(src@, end as int),
{
    let mut j = i;
    while j < src.len()
        invariant
            valid_utf8(src@),
            boundary(src@, j as int),
            i <= j <= src.len(),
            whitespace_end(src@, j as int) == whitespace_end(src@, i as int),
        decreases src.len() - j,
    {
        let (c, w) = decode_at(src, j);
        if !is_whitespace(c) {
            return j;
        }
        j = j + w;
    }
    j
}

/// Skips to the end of the line that holds offset `i`.
pub fn scan_line(src: &[u8], i: usize) -> (end: usize)
    requires
        valid_utf8(src@),
        boundary(src@, i as int),
    ensures
        end == line_end(src@, i as int),
        i <= end <= src.len(),
        boundary(src@, end as int),
{
    let mut j = i;
    while j < src.len()
        invariant
            valid_utf8(src@),
            boundary(src@, j as int),
            i <= j <= src.len(),
            line_end(src@, j as int) == line_end(src@, i as int),
        decreases src.len() - j,
    {
        let (c, w) = decode_at(src, j);
        if is_line_terminator(c) {
            return j;
        }
        j = j + w;
    }
    j
}

/// Skips the text of a block comment from `i` on.
pub fn scan_block_comment(src: &[u8], i: usize) -> (r: (usize, bool))
    requires
        valid_utf8(src@),
        boundary(src@, i as int),
    ensures
        (r.0 as int, r.1) == block_comment_end(src@, i as int),
        i <= r.0 <= src.len(),
        boundary(src@, r.0 as int),
{
    let mut j = i;
    while j < src.len()
        invariant
            valid_utf8(src@),
            boundary(src@, j as int),
            i <= j <= src.len(),
            block_comment_end(src@, j as int) == block_comment_end(src@, i as int),
        decreases src.len() - j,
    {
        if src[j] == '*' as u8 && byte_is(src, j + 1, '/' as u8) {
            let close = step(src, j);
            return (step(src, close), true);
        }
        j = step(src, j);
    }
    (j, false)
}

} // verus!
