//! Identifiers, keywords and the unicode escapes that may stand in them.

use crate::classify::{
    hex_digit_value, hex_value, id_continue, id_start, is_hex_digit, is_id_continue, is_id_start,
};
use crate::token::SyntaxKind;
use crate::utf8::{
    boundary, byte_is, char_at, decode_at, is_at, lemma_ascii_step, lemma_char_step, next_at, step,
};
use vstd::prelude::*;
use vstd::string::*;
use vstd::utf8::valid_utf8;

verus! {

/// End of the maximal run of hexadecimal digits that starts at `i`.
pub open spec fn hex_run_end(s: Seq<u8>, i: int) -> int
    decreases s.len() - i,
{
    if 0 <= i < s.len() && is_hex_digit(s[i]) {
        hex_run_end(s, i + 1)
    } else {
        i
    }
}

/// The number that the hexadecimal digits from `from` up to `to` write.
pub open spec fn hex_number(s: Seq<u8>, from: int, to: int) -> int
    decreases to - from,
{
    if to <= from {
        0
    } else {
        hex_number(s, from, to - 1) * 16 + hex_value(s[to - 1])
    }
}

/// The code point that `\u{`, hexadecimal digits and `}` name, where the
/// digits start at `first`.
pub open spec fn braced_escape(s: Seq<u8>, first: int) -> Option<(u32, int)> {
    let e = hex_run_end(s, first);
    if first < e && is_at(s, e, '}' as u8) && hex_number(s, first, e) <= 0x10ffff {
        Some((hex_number(s, first, e) as u32, e + 1))
    } else {
        None
    }
}

/// The code point that `\u` and exactly four hexadecimal digits name, where
/// the digits start at `first`.
pub open spec fn plain_escape(s: Seq<u8>, first: int) -> Option<(u32, int)> {
    if first + 4 <= s.len() && is_hex_digit(s[first]) && is_hex_digit(s[first + 1])
        && is_hex_digit(s[first + 2]) && is_hex_digit(s[first + 3]) {
        Some(
            (
                (hex_value(s[first]) * 0x1000 + hex_value(s[first + 1]) * 0x100 + hex_value(
                    s[first + 2],
                ) * 0x10 + hex_value(s[first + 3])) as u32,
                first + 4,
            ),
        )
    } else {
        None
    }
}

/// The unicode escape that starts with the backslash at `i`: the code point
/// it names and the offset behind it. Well-formed are `\u` with exactly four
/// hexadecimal digits, and `\u{`, one or more hexadecimal digits that write
/// at most 10FFFF, and `}`.
pub open spec fn unicode_escape(s: Seq<u8>, i: int) -> Option<(u32, int)> {
    if !(is_at(s, i, '\\' as u8) && is_at(s, i + 1, 'u' as u8)) {
        None
    } else if is_at(s, i + 2, '{' as u8) {
        braced_escape(s, i + 3)
    } else {
        plain_escape(s, i + 2)
    }
}

/// Offset behind the character or escape at `i` where it can start an
/// identifier; `i` itself where it cannot.
pub open spec fn id_start_end(s: Seq<u8>, i: int) -> int {
    if !(0 <= i < s.len()) {
        i
    } else if s[i] == '\\' as u8 {
        match unicode_escape(s, i) {
            Some((c, e)) => if is_id_start(c) {
                e
            } else {
                i
            },
            None => i,
        }
    } else if is_id_start(char_at(s, i)) {
        next_at(s, i)
    } else {
        i
    }
}

/// Offset behind the character or escape at `i` where it can continue an
/// identifier; `i` itself where it cannot.
pub open spec fn id_part_end(s: Seq<u8>, i: int) -> int {
    if !(0 <= i < s.len()) {
        i
    } else if s[i] == '\\' as u8 {
        match unicode_escape(s, i) {
            Some((c, e)) => if is_id_continue(c) {
                e
            } else {
                i
            },
            None => i,
        }
    } else if is_id_continue(char_at(s, i)) {
        next_at(s, i)
    } else {
        i
    }
}

/// End of the maximal run of identifier parts that starts at `i`.
pub open spec fn ident_end(s: Seq<u8>, i: int) -> int
    decreases s.len() - i,
{
    let j = id_part_end(s, i);
    if i < j <= s.len() {
        ident_end(s, j)
    } else {
        i
    }
}

/// The keyword that `text` spells, if it spells one exactly.
pub open spec fn keyword(text: Seq<u8>) -> Option<SyntaxKind> {
    if text == "await".spec_bytes() {
        Some(SyntaxKind::AWAIT_KW)
    } else if text == "break".spec_bytes() {
        Some(SyntaxKind::BREAK_KW)
    } else if text == "case".spec_bytes() {
        Some(SyntaxKind::CASE_KW)
    } else if text == "catch".spec_bytes() {
        Some(SyntaxKind::CATCH_KW)
    } else if text == "class".spec_bytes() {
        Some(SyntaxKind::CLASS_KW)
    } else if text == "const".spec_bytes() {
        Some(SyntaxKind::CONST_KW)
    } else if text == "continue".spec_bytes() {
        Some(SyntaxKind::CONTINUE_KW)
    } else if text == "debugger".spec_bytes() {
        Some(SyntaxKind::DEBUGGER_KW)
    } else if text == "default".spec_bytes() {
        Some(SyntaxKind::DEFAULT_KW)
    } else if text == "delete".spec_bytes() {
        Some(SyntaxKind::DELETE_KW)
    } else if text == "do".spec_bytes() {
        Some(SyntaxKind::DO_KW)
    } else if text == "else".spec_bytes() {
        Some(SyntaxKind::ELSE_KW)
    } else if text == "enum".spec_bytes() {
        Some(SyntaxKind::ENUM_KW)
    } else if text == "export".spec_bytes() {
        Some(SyntaxKind::EXPORT_KW)
    } else if text == "extends".spec_bytes() {
        Some(SyntaxKind::EXTENDS_KW)
    } else if text == "false".spec_bytes() {
        Some(SyntaxKind::FALSE_KW)
    } else if text == "finally".spec_bytes() {
        Some(SyntaxKind::FINALLY_KW)
    } else if text == "for".spec_bytes() {
        Some(SyntaxKind::FOR_KW)
    } else if text == "function".spec_bytes() {
        Some(SyntaxKind::FUNCTION_KW)
    } else if text == "if".spec_bytes() {
        Some(SyntaxKind::IF_KW)
    } else if text == "in".spec_bytes() {
        Some(SyntaxKind::IN_KW)
    } else if text == "instanceof".spec_bytes() {
        Some(SyntaxKind::INSTANCEOF_KW)
    } else if text == "interface".spec_bytes() {
        Some(SyntaxKind::INTERFACE_KW)
    } else if text == "import".spec_bytes() {
        Some(SyntaxKind::IMPORT_KW)
    } else if text == "implements".spec_bytes() {
        Some(SyntaxKind::IMPLEMENTS_KW)
    } else if text == "new".spec_bytes() {
        Some(SyntaxKind::NEW_KW)
    } else if text == "null".spec_bytes() {
        Some(SyntaxKind::NULL_KW)
    } else if text == "package".spec_bytes() {
        Some(SyntaxKind::PACKAGE_KW)
    } else if text == "private".spec_bytes() {
        Some(SyntaxKind::PRIVATE_KW)
    } else if text == "protected".spec_bytes() {
        Some(SyntaxKind::PROTECTED_KW)
    } else if text == "public".spec_bytes() {
        Some(SyntaxKind::PUBLIC_KW)
    } else if text == "return".spec_bytes() {
        Some(SyntaxKind::RETURN_KW)
    } else if text == "super".spec_bytes() {
        Some(SyntaxKind::SUPER_KW)
    } else if text == "switch".spec_bytes() {
        Some(SyntaxKind::SWITCH_KW)
    } else if text == "this".spec_bytes() {
        Some(SyntaxKind::THIS_KW)
    } else if text == "throw".spec_bytes() {
        Some(SyntaxKind::THROW_KW)
    } else if text == "try".spec_bytes() {
        Some(SyntaxKind::TRY_KW)
    } else if text == "true".spec_bytes() {
        Some(SyntaxKind::TRUE_KW)
    } else if text == "typeof".spec_bytes() {
        Some(SyntaxKind::TYPEOF_KW)
    } else if text == "var".spec_bytes() {
        Some(SyntaxKind::VAR_KW)
    } else if text == "void".spec_bytes() {
        Some(SyntaxKind::VOID_KW)
    } else if text == "while".spec_bytes() {
        Some(SyntaxKind::WHILE_KW)
    } else if text == "with".spec_bytes() {
        Some(SyntaxKind::WITH_KW)
    } else if text == "yield".spec_bytes() {
        Some(SyntaxKind::YIELD_KW)
    } else {
        None
    }}

/// Kind of the identifier-like word `text`: its keyword, else an identifier.
pub open spec fn word_kind(text: Seq<u8>) -> SyntaxKind {
    match keyword(text) {
        Some(kind) => kind,
        None => SyntaxKind::IDENT,
    }
}

/// A run of hexadecimal digits ends on a character boundary inside the
/// text.
pub proof fn lemma_hex_run_end(s: Seq<u8>, i: int)
    requires
        valid_utf8(s),
        boundary(s, i),
    ensures
        i <= hex_run_end(s, i) <= s.len(),
        boundary(s, hex_run_end(s, i)),
    decreases s.len() - i,
{
    if i < s.len() && is_hex_digit(s[i]) {
        lemma_ascii_step(s, i);
        lemma_hex_run_end(s, i + 1);
    }
}

/// A well-formed unicode escape ends on a character boundary inside the
/// text, behind its backslash.
pub proof fn lemma_unicode_escape(s: Seq<u8>, i: int)
    requires
        valid_utf8(s),
    ensures
        match unicode_escape(s, i) {
            Some((_, e)) => i < e <= s.len() && boundary(s, e),
            None => true,
        },
{
    if let Some((_, e)) = unicode_escape(s, i) {
        lemma_ascii_step(s, i);
        lemma_ascii_step(s, i + 1);
        if is_at(s, i + 2, '{' as u8) {
            lemma_ascii_step(s, i + 2);
            lemma_hex_run_end(s, i + 3);
            lemma_ascii_step(s, hex_run_end(s, i + 3));
        } else {
            lemma_ascii_step(s, i + 5);
        }
    }
}

/// The first character or escape of an identifier ends on a character
/// boundary inside the text.
pub proof fn lemma_id_start_end(s: Seq<u8>, i: int)
    requires
        valid_utf8(s),
        boundary(s, i),
    ensures
        i <= id_start_end(s, i) <= s.len(),
        boundary(s, id_start_end(s, i)),
{
    if i < s.len() {
        lemma_unicode_escape(s, i);
        lemma_char_step(s, i);
    }
}

/// A further character or escape of an identifier ends on a character
/// boundary inside the text.
pub proof fn lemma_id_part_end(s: Seq<u8>, i: int)
    requires
        valid_utf8(s),
        boundary(s, i),
    ensures
        i <= id_part_end(s, i) <= s.len(),
        boundary(s, id_part_end(s, i)),
{
    if i < s.len() {
        lemma_unicode_escape(s, i);
        lemma_char_step(s, i);
    }
}

/// An identifier ends on a character boundary inside the text, and where
/// nothing follows that could continue it: the run is maximal.
pub proof fn lemma_ident_end(s: Seq<u8>, i: int)
    requires
        valid_utf8(s),
        boundary(s, i),
    ensures
        i <= ident_end(s, i) <= s.len(),
        boundary(s, ident_end(s, i)),
        id_part_end(s, ident_end(s, i)) == ident_end(s, i),
    decreases s.len() - i,
{
    lemma_id_part_end(s, i);
    let j = id_part_end(s, i);
    if i < j <= s.len() {
        lemma_ident_end(s, j);
    }
}

/// Skips the run of hexadecimal digits that starts at `i`.
pub fn scan_hex_run(src: &[u8], i: usize) -> (end: usize)
    requires
        valid_utf8(src@),
        boundary(src@, i as int),
        i <= src.len(),
    ensures
        end == hex_run_end(src@, i as int),
        i <= end <= src.len(),
        boundary(src@, end as int),
{
    let mut j = i;
    while j < src.len() && is_hex_digit(src[j])
        invariant
            valid_utf8(src@),
            boundary(src@, j as int),
            i <= j <= src.len(),
            hex_run_end(src@, j as int) == hex_run_end(src@, i as int),
        decreases src.len() - j,
    {
        proof {
            lemma_ascii_step(src@, j as int);
        }
        j = j + 1;
    }
    j
}

/// Whether the result `r` of reading an escape is what `wanted` says, and
/// ends on a boundary behind `i`.
pub open spec fn escape_read(
    s: Seq<u8>,
    i: int,
    r: Option<(u32, usize)>,
    wanted: Option<(u32, int)>,
) -> bool {
    match r {
        Some((c, e)) => wanted == Some((c, e as int)) && i < e <= s.len() && boundary(s, e as int),
        None => wanted is None,
    }
}

fn read_braced_escape(src: &[u8], first: usize) -> (r: Option<(u32, usize)>)
    requires
        valid_utf8(src@),
        first <= src.len(),
    ensures
        escape_read(src@, first as int, r, braced_escape(src@, first as int)),
{
    let mut j = first;
    let mut value: u32 = 0;
    let mut over = false;
    while j < src.len() && is_hex_digit(src[j])
        invariant
            first <= j <= src.len(),
            hex_run_end(src@, j as int) == hex_run_end(src@, first as int),
            over == (hex_number(src@, first as int, j as int) > 0x10ffff),
            !over ==> value == hex_number(src@, first as int, j as int),
        decreases src.len() - j,
    {
        let digit = hex_digit_value(src[j]);
        assert(hex_number(src@, first as int, j + 1) == hex_number(src@, first as int, j as int)
            * 16 + digit);
        if !over {
            value = value * 16 + digit;
            over = value > 0x10ffff;
        }
        j = j + 1;
    }
    if first < j && !over && byte_is(src, j, '}' as u8) {
        Some((value, step(src, j)))
    } else {
        None
    }
}

fn read_plain_escape(src: &[u8], first: usize) -> (r: Option<(u32, usize)>)
    requires
        valid_utf8(src@),
        first <= src.len(),
    ensures
        escape_read(src@, first as int, r, plain_escape(src@, first as int)),
{
    if src.len() - first < 4 {
        return None;
    }
    let (b0, b1, b2, b3) = (src[first], src[first + 1], src[first + 2], src[first + 3]);
    if is_hex_digit(b0) && is_hex_digit(b1) && is_hex_digit(b2) && is_hex_digit(b3) {
        let value = hex_digit_value(b0) * 0x1000 + hex_digit_value(b1) * 0x100 + hex_digit_value(b2)
            * 0x10 + hex_digit_value(b3);
        Some((value, step(src, first + 3)))
    } else {
        None
    }
}

/// Reads the unicode escape whose backslash stands at `i`.
pub fn read_unicode_escape(src: &[u8], i: usize) -> (r: Option<(u32, usize)>)
    requires
        valid_utf8(src@),
    ensures
        escape_read(src@, i as int, r, unicode_escape(src@, i as int)),
{
    if !byte_is(src, i, '\\' as u8) {
        return None;
    }
    if !byte_is(src, i + 1, 'u' as u8) {
        return None;
    }
    if byte_is(src, i + 2, '{' as u8) {
        read_braced_escape(src, i + 3)
    } else {
        read_plain_escape(src, i + 2)
    }
}

/// Says whether an identifier can start at `i`, and where its first
/// character or escape ends.
pub fn scan_id_start(src: &[u8], i: usize) -> (end: usize)
    requires
        valid_utf8(src@),
        boundary(src@, i as int),
    ensures
        end == id_start_end(src@, i as int),
        i <= end <= src.len(),
        boundary(src@, end as int),
{
    if i >= src.len() {
        i
    } else if src[i] == '\\' as u8 {
        match read_unicode_escape(src, i) {
            Some((c, e)) => if id_start(c) {
                e
            } else {
                i
            },
            None => i,
        }
    } else {
        let (c, w) = decode_at(src, i);
        if id_start(c) {
            i + w
        } else {
            i
        }
    }
}

/// Says whether an identifier can go on at `i`, and where that character or
/// escape ends.
pub fn scan_id_part(src: &[u8], i: usize) -> (end: usize)
    requires
        valid_utf8(src@),
        boundary(src@, i as int),
    ensures
        end == id_part_end(src@, i as int),
        i <= end <= src.len(),
        boundary(src@, end as int),
{
    if i >= src.len() {
        i
    } else if src[i] == '\\' as u8 {
        match read_unicode_escape(src, i) {
            Some((c, e)) => if id_continue(c) {
                e
            } else {
                i
            },
            None => i,
        }
    } else {
        let (c, w) = decode_at(src, i);
        if id_continue(c) {
            i + w
        } else {
            i
        }
    }
}

/// Skips the run of identifier parts that starts at `i`.
pub fn scan_ident(src: &[u8], i: usize) -> (end: usize)
    requires
        valid_utf8(src@),
        boundary(src@, i as int),
    ensures
        end == ident_end(src@, i as int),
        i <= end <= src.len(),
        boundary(src@, end as int),
{
    let mut j = i;
    loop
        invariant
            valid_utf8(src@),
            boundary(src@, j as int),
            i <= j <= src.len(),
            ident_end(src@, j as int) == ident_end(src@, i as int),
        decreases src.len() - j,
    {
        let next = scan_id_part(src, j);
        if next == j {
            return j;
        }
        j = next;
    }
}

/// Whether the bytes from `from` up to `to` spell `word`.
pub fn text_is(src: &[u8], from: usize, to: usize, word: &str) -> (r: bool)
    requires
        from <= to <= src.len(),
    ensures
        r == (src@.subrange(from as int, to as int) == word.spec_bytes()),
{
    let w = word.as_bytes();
    if w.len() != to - from {
        return false;
    }
    let mut k: usize = 0;
    while k < w.len()
        invariant
            from <= to <= src.len(),
            w.len() == to - from,
            w@ == word.spec_bytes(),
            k <= w.len(),
            forall|n: int| 0 <= n < k ==> src@[from + n] == w@[n],
        decreases w.len() - k,
    {
        if src[from + k] != w[k] {
            assert(src@.subrange(from as int, to as int)[k as int] != w@[k as int]);
            return false;
        }
        k = k + 1;
    }
    assert(src@.subrange(from as int, to as int) =~= w@);
    true
}

/// Looks the bytes from `from` up to `to` up among the keywords.
pub fn keyword_of(src: &[u8], from: usize, to: usize) -> (r: Option<SyntaxKind>)
    requires
        from <= to <= src.len(),
    ensures
        r == keyword(src@.subrange(from as int, to as int)),
{
    let ghost text = src@.subrange(from as int, to as int);
    if text_is(src, from, to, "await") {
        Some(SyntaxKind::AWAIT_KW)
    } else if text_is(src, from, to, "break") {
        Some(SyntaxKind::BREAK_KW)
    } else if text_is(src, from, to, "case") {
        Some(SyntaxKind::CASE_KW)
    } else if text_is(src, from, to, "catch") {
        Some(SyntaxKind::CATCH_KW)
    } else if text_is(src, from, to, "class") {
        Some(SyntaxKind::CLASS_KW)
    } else if text_is(src, from, to, "const") {
        Some(SyntaxKind::CONST_KW)
    } else if text_is(src, from, to, "continue") {
        Some(SyntaxKind::CONTINUE_KW)
    } else if text_is(src, from, to, "debugger") {
        Some(SyntaxKind::DEBUGGER_KW)
    } else if text_is(src, from, to, "default") {
        Some(SyntaxKind::DEFAULT_KW)
    } else if text_is(src, from, to, "delete") {
        Some(SyntaxKind::DELETE_KW)
    } else if text_is(src, from, to, "do") {
        Some(SyntaxKind::DO_KW)
    } else if text_is(src, from, to, "else") {
        Some(SyntaxKind::ELSE_KW)
    } else if text_is(src, from, to, "enum") {
        Some(SyntaxKind::ENUM_KW)
    } else if text_is(src, from, to, "export") {
        Some(SyntaxKind::EXPORT_KW)
    } else if text_is(src, from, to, "extends") {
        Some(SyntaxKind::EXTENDS_KW)
    } else if text_is(src, from, to, "false") {
        Some(SyntaxKind::FALSE_KW)
    } else if text_is(src, from, to, "finally") {
        Some(SyntaxKind::FINALLY_KW)
    } else if text_is(src, from, to, "for") {
        Some(SyntaxKind::FOR_KW)
    } else if text_is(src, from, to, "function") {
        Some(SyntaxKind::FUNCTION_KW)
    } else if text_is(src, from, to, "if") {
        Some(SyntaxKind::IF_KW)
    } else if text_is(src, from, to, "in") {
        Some(SyntaxKind::IN_KW)
    } else if text_is(src, from, to, "instanceof") {
        Some(SyntaxKind::INSTANCEOF_KW)
    } else if text_is(src, from, to, "interface") {
        Some(SyntaxKind::INTERFACE_KW)
    } else if text_is(src, from, to, "import") {
        Some(SyntaxKind::IMPORT_KW)
    } else if text_is(src, from, to, "implements") {
        Some(SyntaxKind::IMPLEMENTS_KW)
    } else if text_is(src, from, to, "new") {
        Some(SyntaxKind::NEW_KW)
    } else if text_is(src, from, to, "null") {
        Some(SyntaxKind::NULL_KW)
    } else if text_is(src, from, to, "package") {
        Some(SyntaxKind::PACKAGE_KW)
    } else if text_is(src, from, to, "private") {
        Some(SyntaxKind::PRIVATE_KW)
    } else if text_is(src, from, to, "protected") {
        Some(SyntaxKind::PROTECTED_KW)
    } else if text_is(src, from, to, "public") {
        Some(SyntaxKind::PUBLIC_KW)
    } else if text_is(src, from, to, "return") {
        Some(SyntaxKind::RETURN_KW)
    } else if text_is(src, from, to, "super") {
        Some(SyntaxKind::SUPER_KW)
    } else if text_is(src, from, to, "switch") {
        Some(SyntaxKind::SWITCH_KW)
    } else if text_is(src, from, to, "this") {
        Some(SyntaxKind::THIS_KW)
    } else if text_is(src, from, to, "throw") {
        Some(SyntaxKind::THROW_KW)
    } else if text_is(src, from, to, "try") {
        Some(SyntaxKind::TRY_KW)
    } else if text_is(src, from, to, "true") {
        Some(SyntaxKind::TRUE_KW)
    } else if text_is(src, from, to, "typeof") {
        Some(SyntaxKind::TYPEOF_KW)
    } else if text_is(src, from, to, "var") {
        Some(SyntaxKind::VAR_KW)
    } else if text_is(src, from, to, "void") {
        Some(SyntaxKind::VOID_KW)
    } else if text_is(src, from, to, "while") {
        Some(SyntaxKind::WHILE_KW)
    } else if text_is(src, from, to, "with") {
        Some(SyntaxKind::WITH_KW)
    } else if text_is(src, from, to, "yield") {
        Some(SyntaxKind::YIELD_KW)
    } else {
        None
    }}

} // verus!
