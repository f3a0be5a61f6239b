//! Characters inside a UTF-8 buffer: where they start, how wide they are and
//! which code point they hold.

use vstd::prelude::*;
use vstd::utf8::*;

verus! {

/// The byte at offset `i` exists and is `b`.
pub open spec fn is_at(s: Seq<u8>, i: int, b: u8) -> bool {
    0 <= i < s.len() && s[i] == b
}

/// Whether the byte at offset `i` exists and is `b`.
pub fn byte_is(src: &[u8], i: usize, b: u8) -> (r: bool)
    ensures
        r == is_at(src@, i as int, b),
        r ==> i < src.len(),
{
    i < src.len() && src[i] == b
}

/// Offset `i` does not point inside a multi-byte character of `s`: it is the
/// end of `s` or the byte there is not a continuation byte.
pub open spec fn boundary(s: Seq<u8>, i: int) -> bool {
    0 <= i <= s.len() && (i < s.len() ==> !is_continuation_byte(s[i]))
}

/// Width in bytes of the character whose first byte is `s[i]`.
pub open spec fn width_at(s: Seq<u8>, i: int) -> int {
    if s[i] < 0x80 {
        1
    } else if s[i] < 0xe0 {
        2
    } else if s[i] < 0xf0 {
        3
    } else {
        4
    }
}

/// Code point of the character whose first byte is `s[i]`.
pub open spec fn char_at(s: Seq<u8>, i: int) -> u32 {
    if s[i] < 0x80 {
        s[i] as u32
    } else if s[i] < 0xe0 {
        codepoint_width_2(s[i], s[i + 1])
    } else if s[i] < 0xf0 {
        codepoint_width_3(s[i], s[i + 1], s[i + 2])
    } else {
        codepoint_width_4(s[i], s[i + 1], s[i + 2], s[i + 3])
    }
}

/// Offset just behind the character whose first byte is `s[i]`; the end of
/// the input where the character is cut short.
pub open spec fn next_at(s: Seq<u8>, i: int) -> int {
    if i + width_at(s, i) <= s.len() {
        i + width_at(s, i)
    } else {
        s.len() as int
    }
}

/// In valid UTF-8, `boundary` is the character boundary of `str`.
pub proof fn lemma_boundary_is_char_boundary(s: Seq<u8>, i: int)
    requires
        valid_utf8(s),
    ensures
        boundary(s, i) <==> is_char_boundary(s, i),
{
    if i == s.len() {
        is_char_boundary_start_end_of_seq(s);
    } else if 0 <= i < s.len() {
        is_char_boundary_iff_not_is_continuation_byte(s, i);
    } else if i != 0 {
        reveal_with_fuel(is_char_boundary, 2);
    }
}

proof fn lemma_ascii_bits(b: u8)
    by (bit_vector)
    requires
        b < 0x80,
    ensures
        (b & 0x7f) as u32 == b as u32,
{
}

/// A character that starts on a boundary of valid UTF-8 lies inside the
/// buffer, ends on a boundary, and decodes to a Unicode scalar value.
pub proof fn lemma_char_step(s: Seq<u8>, i: int)
    requires
        valid_utf8(s),
        boundary(s, i),
        i < s.len(),
    ensures
        1 <= width_at(s, i) <= 4,
        i + width_at(s, i) <= s.len(),
        boundary(s, i + width_at(s, i)),
        next_at(s, i) == i + width_at(s, i),
        forall|k: int| i < k < i + width_at(s, i) ==> is_continuation_byte(#[trigger] s[k]),
        is_scalar(char_at(s, i)),
        s[i] < 0x80 <==> char_at(s, i) < 0x80,
        valid_first_scalar(s.subrange(i, s.len() as int)),
        char_at(s, i) == decode_first_scalar(s.subrange(i, s.len() as int)),
        width_at(s, i) == length_of_first_scalar(s.subrange(i, s.len() as int)),
{
    let rest = s.subrange(i, s.len() as int);
    lemma_boundary_is_char_boundary(s, i);
    valid_utf8_split(s, i);
    assert(valid_first_scalar(rest));
    assert(rest[0] == s[i]);
    let w = length_of_first_scalar(rest);
    assert(w == width_at(s, i));
    if w >= 2 {
        assert(rest[1] == s[i + 1]);
    }
    if w >= 3 {
        assert(rest[2] == s[i + 2]);
    }
    if w >= 4 {
        assert(rest[3] == s[i + 3]);
    }
    if s[i] < 0x80 {
        lemma_ascii_bits(s[i]);
    }
    let c = decode_first_scalar(rest);
    assert(c == char_at(s, i));
    lemma_scalar_of_valid(rest);
    let tail = pop_first_scalar(rest);
    assert(valid_utf8(tail));
    if i + w < s.len() {
        assert(tail.len() > 0);
        assert(valid_first_scalar(tail));
        assert(tail[0] == s[i + w]);
    }
}

/// Behind an ASCII byte of valid UTF-8 a character starts, or the input
/// ends.
pub proof fn lemma_ascii_step(s: Seq<u8>, i: int)
    requires
        valid_utf8(s),
        0 <= i < s.len(),
        s[i] < 0x80,
    ensures
        boundary(s, i),
        boundary(s, i + 1),
        next_at(s, i) == i + 1,
{
    lemma_char_step(s, i);
}

proof fn lemma_scalar_of_valid(rest: Seq<u8>)
    requires
        valid_first_scalar(rest),
    ensures
        is_scalar(decode_first_scalar(rest)),
        rest[0] < 0x80 <==> decode_first_scalar(rest) < 0x80,
{
    let b0 = rest[0];
    if is_leading_byte_width_1(b0) {
        lemma_ascii_bits(b0);
    } else if is_leading_byte_width_2(b0) {
        let b1 = rest[1];
        assert((((b0 & 0x1f) as u32) << 6) | ((b1 & 0x3f) as u32) <= 0x7ff) by (bit_vector);
    } else if is_leading_byte_width_3(b0) {
        let b1 = rest[1];
        let b2 = rest[2];
        assert((((b0 & 0x0f) as u32) << 12) | (((b1 & 0x3f) as u32) << 6) | ((b2 & 0x3f) as u32)
            <= 0xffff) by (bit_vector);
    } else {
    }
}

/// The offset just behind the character that starts at offset `i`.
pub fn step(src: &[u8], i: usize) -> (j: usize)
    requires
        valid_utf8(src@),
        boundary(src@, i as int),
        i < src.len(),
    ensures
        j == next_at(src@, i as int),
        j == i + width_at(src@, i as int),
        i < j <= src.len(),
        boundary(src@, j as int),
{
    proof {
        lemma_char_step(src@, i as int);
    }
    let b0 = src[i];
    if b0 < 0x80 {
        i + 1
    } else if b0 < 0xe0 {
        i + 2
    } else if b0 < 0xf0 {
        i + 3
    } else {
        i + 4
    }
}

/// Decodes the character that starts at offset `i`.
pub fn decode_at(src: &[u8], i: usize) -> (r: (u32, usize))
    requires
        valid_utf8(src@),
        boundary(src@, i as int),
        i < src.len(),
    ensures
        r.0 == char_at(src@, i as int),
        r.0 == decode_first_scalar(src@.subrange(i as int, src@.len() as int)),
        is_scalar(r.0),
        r.1 == width_at(src@, i as int),
        i + r.1 == next_at(src@, i as int),
        i + r.1 <= src.len(),
        boundary(src@, i + r.1),
{
    proof {
        lemma_char_step(src@, i as int);
    }
    let b0 = src[i];
    if b0 < 0x80 {
        (b0 as u32, 1)
    } else if b0 < 0xe0 {
        let b1 = src[i + 1];
        ((((b0 & 0x1f) as u32) << 6) | ((b1 & 0x3f) as u32), 2)
    } else if b0 < 0xf0 {
        let b1 = src[i + 1];
        let b2 = src[i + 2];
        ((((b0 & 0x0f) as u32) << 12) | (((b1 & 0x3f) as u32) << 6) | ((b2 & 0x3f) as u32), 3)
    } else {
        let b1 = src[i + 1];
        let b2 = src[i + 2];
        let b3 = src[i + 3];
        (
            (((b0 & 0x07) as u32) << 18) | (((b1 & 0x3f) as u32) << 12) | (((b2 & 0x3f) as u32)
                << 6) | ((b3 & 0x3f) as u32),
            4,
        )
    }
}

} // verus!
