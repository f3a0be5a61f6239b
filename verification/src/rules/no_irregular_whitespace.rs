//! Disallows irregular whitespace: whitespace that is legal in a script but
//! invisible or known to break tools. Offenders are very rare, so a first
//! pass looks for the bytes that can start one, and only where one is found
//! are characters decoded.

use crate::classify::is_irregular_whitespace;
use crate::lexer::{lemma_progress, lexes, LexerReturn};
use crate::state::State;
use crate::token::{SyntaxKind, Token};
use crate::utf8::{boundary, char_at, decode_at, lemma_char_step, next_at, width_at};
use vstd::prelude::*;
use vstd::string::*;
use vstd::utf8::{
    codepoint_width_2, codepoint_width_3, encode_utf8_valid_utf8, is_continuation_byte,
    not_overlong_encoding, valid_utf8,
};

verus! {

/// The rule and its options: inside which kinds of token irregular
/// whitespace is let pass.
#[derive(Clone, Copy, Debug, PartialEq, Eq, Structural)]
pub struct NoIrregularWhitespace {
    /// Whether to allow any whitespace in string literals (true by default).
    pub skip_strings: bool,
    /// Whether to allow any whitespace in comments (false by default).
    pub skip_comments: bool,
    /// Whether to allow any whitespace in regular expressions (false by
    /// default).
    pub skip_regex: bool,
    /// Whether to allow any whitespace in template literals (false by
    /// default).
    pub skip_templates: bool,
}

impl Default for NoIrregularWhitespace {
    fn default() -> (r: NoIrregularWhitespace)
        ensures
            r == (NoIrregularWhitespace {
                skip_strings: true,
                skip_comments: false,
                skip_regex: false,
                skip_templates: false,
            }),
    {
        NoIrregularWhitespace {
            skip_strings: true,
            skip_comments: false,
            skip_regex: false,
            skip_templates: false,
        }
    }
}

/// An irregular whitespace character that the rule reports: where it
/// stands, how many bytes it takes, and its code point.
#[derive(Clone, Copy, Debug, PartialEq, Eq, Structural)]
pub struct Violation {
    pub offset: usize,
    pub len: usize,
    pub character: u32,
}

/// The bytes that the first pass looks for. Every irregular whitespace
/// character starts with one of them; so do other characters, and two of
/// them occur inside characters as well.
#[verifier::allow_in_spec]
pub fn is_first_byte(b: u8) -> bool
    returns
        (b == 0x0b || b == 0x0c || b == 0xa0 || b == 0x85 || b == 0xc2 || b == 0xe1 || b == 0xef
            || b == 0xe2 || b == 0xe3),
{
    b == 0x0b || b == 0x0c || b == 0xa0 || b == 0x85 || b == 0xc2 || b == 0xe1 || b == 0xef || b
        == 0xe2 || b == 0xe3
}

/// Whether `b` is a byte from inside a character.
pub fn is_continuation(b: u8) -> (r: bool)
    ensures
        r == is_continuation_byte(b),
{
    0x80 <= b && b <= 0xbf
}

/// The name of an irregular whitespace character.
pub open spec fn whitespace_name(c: u32) -> Seq<char> {
    if c == 0x0b {
        "Line Tabulation (\\v)"@
    } else if c == 0x0c {
        "Form Feed (\\f)"@
    } else if c == 0xa0 {
        "No-Break Space"@
    } else if c == 0x85 {
        "Next Line"@
    } else if c == 0x1680 {
        "Ogham Space Mark"@
    } else if c == 0x180e {
        "Mongolian Vowel Separator"@
    } else if c == 0xfeff {
        "Zero Width No-Break Space"@
    } else if c == 0x2000 {
        "En Quad"@
    } else if c == 0x2001 {
        "Em Quad"@
    } else if c == 0x2002 {
        "En Space"@
    } else if c == 0x2003 {
        "Em Space"@
    } else if c == 0x2004 {
        "Tree-Per-Em"@
    } else if c == 0x2005 {
        "Four-Per-Em"@
    } else if c == 0x2006 {
        "Six-Per-Em"@
    } else if c == 0x2007 {
        "Figure Space"@
    } else if c == 0x2008 {
        "Punctuation Space"@
    } else if c == 0x2009 {
        "Thin Space"@
    } else if c == 0x200a {
        "Hair Space"@
    } else if c == 0x200b {
        "Zero Width Space"@
    } else if c == 0x2028 {
        "Line Separator"@
    } else if c == 0x2029 {
        "Paragraph Separator"@
    } else if c == 0x202f {
        "Narrow No-Break space"@
    } else if c == 0x205f {
        "Medium Mathematical Space"@
    } else {
        "Ideographic Space"@
    }
}

/// The offset at which the token `k` starts: the sum of the lengths of the
/// tokens before it.
pub open spec fn token_start(tokens: Seq<Token>, k: int) -> int
    decreases k,
{
    if k <= 0 {
        0
    } else {
        token_start(tokens, k - 1) + tokens[k - 1].len
    }
}

/// The token `k` covers the bytes from `start` up to `end`.
pub open spec fn covers(tokens: Seq<Token>, k: int, start: int, end: int) -> bool {
    0 <= k < tokens.len() && token_start(tokens, k) <= start && end <= token_start(tokens, k)
        + tokens[k].len
}

/// Tokens stand in the order of their offsets.
pub proof fn lemma_token_start_grows(tokens: Seq<Token>, j: int, k: int)
    requires
        0 <= j <= k,
    ensures
        token_start(tokens, j) <= token_start(tokens, k),
    decreases k - j,
{
    if j < k {
        lemma_token_start_grows(tokens, j, k - 1);
    }
}

/// No two tokens cover the same byte.
pub proof fn lemma_cover_unique(tokens: Seq<Token>, j: int, k: int, start: int, end: int)
    requires
        start < end,
        covers(tokens, j, start, end),
        covers(tokens, k, start, end),
    ensures
        j == k,
{
    if j < k {
        lemma_token_start_grows(tokens, j + 1, k);
    } else if k < j {
        lemma_token_start_grows(tokens, k + 1, j);
    }
}

/// Some token covers the bytes from `start` up to `end`.
pub open spec fn covered(tokens: Seq<Token>, start: int, end: int) -> bool {
    exists|k: int| #[trigger] covers(tokens, k, start, end)
}

/// The tokens of a tokenization, without their diagnostics.
pub open spec fn tokens_of(items: Seq<LexerReturn>) -> Seq<Token> {
    Seq::new(items.len(), |k: int| items[k].0)
}

proof fn lemma_token_start_shift(tokens: Seq<Token>, k: int)
    requires
        0 <= k < tokens.len(),
    ensures
        token_start(tokens, k + 1) == tokens[0].len + token_start(tokens.drop_first(), k),
    decreases k,
{
    reveal_with_fuel(token_start, 2);
    if k > 0 {
        lemma_token_start_shift(tokens, k - 1);
        assert(tokens.drop_first()[k - 1] == tokens[k]);
    }
}

/// The tokens of a text split no character: every character of the text
/// lies inside one token of its tokenization, so that the rule finds a
/// covering token for whatever it decodes. Offsets count from `i`, where
/// the tokenization starts.
pub proof fn lemma_tokens_cover_characters(
    s: Seq<u8>,
    file_id: usize,
    i: int,
    st: State,
    items: Seq<LexerReturn>,
    at: int,
)
    requires
        valid_utf8(s),
        s.len() <= usize::MAX,
        boundary(s, i),
        lexes(s, file_id, i, st, items),
        i <= at < s.len(),
        boundary(s, at),
    ensures
        covered(tokens_of(items), at - i, next_at(s, at) - i),
    decreases items.len(),
{
    lemma_progress(s, file_id, i, st);
    lemma_char_step(s, at);
    let n = items[0].0.len as int;
    let rest = items.drop_first();
    let next = next_at(s, at);
    if at < i + n {
        if i + n < next {
            assert(is_continuation_byte(s[i + n]));
        }
        assert(covers(tokens_of(items), 0, at - i, next - i));
    } else {
        lemma_tokens_cover_characters(s, file_id, i + n, st.after(items[0].0.kind), rest, at);
        let (from, to) = (at - (i + n), next - (i + n));
        let k = choose|k: int| #[trigger] covers(tokens_of(rest), k, from, to);
        assert(tokens_of(items).drop_first() =~= tokens_of(rest));
        lemma_token_start_shift(tokens_of(items), k);
        lemma_token_start_shift(tokens_of(items), k + 1);
        assert(covers(tokens_of(items), k + 1, at - i, next - i));
    }
}

/// Every irregular whitespace character starts with one of the bytes that
/// the first pass looks for.
pub proof fn lemma_first_byte(s: Seq<u8>, i: int)
    requires
        valid_utf8(s),
        boundary(s, i),
        0 <= i < s.len(),
        is_irregular_whitespace(char_at(s, i)),
    ensures
        is_first_byte(s[i]),
{
    lemma_char_step(s, i);
    let c = char_at(s, i);
    let b0 = s[i];
    let rest = s.subrange(i, s.len() as int);
    assert(not_overlong_encoding(c, width_at(s, i)));
    if b0 < 0x80 {
    } else if b0 < 0xe0 {
        let b1 = s[i + 1];
        assert(c == codepoint_width_2(b0, b1));
        assert(c <= 0x7ff && (c == 0x85 || c == 0xa0 ==> b0 == 0xc2)) by (bit_vector)
            requires
                0xc0 <= b0 <= 0xdf,
                c == (((b0 & 0x1f) as u32) << 6) | ((b1 & 0x3f) as u32),
        ;
    } else if b0 < 0xf0 {
        let b1 = s[i + 1];
        let b2 = s[i + 2];
        assert(c == codepoint_width_3(b0, b1, b2));
        assert((c >> 12) == (b0 & 0x0f) as u32 && c <= 0xffff) by (bit_vector)
            requires
                c == (((b0 & 0x0f) as u32) << 12) | (((b1 & 0x3f) as u32) << 6) | ((b2
                    & 0x3f) as u32),
        ;
        let top = c >> 12;
        assert(top == c / 0x1000) by (bit_vector)
            requires
                top == c >> 12,
        ;
        assert(b0 == 0xe0 + (b0 & 0x0f)) by (bit_vector)
            requires
                0xe0 <= b0 <= 0xef,
        ;
    } else {
    }
}

/// Looks up the name of the character `c`, if it is irregular whitespace.
pub fn name_of(c: u32) -> (r: Option<&'static str>)
    ensures
        match r {
            Some(name) => is_irregular_whitespace(c) && name@ == whitespace_name(c),
            None => !is_irregular_whitespace(c),
        },
{
    if c == 0x0b {
        Some("Line Tabulation (\\v)")
    } else if c == 0x0c {
        Some("Form Feed (\\f)")
    } else if c == 0xa0 {
        Some("No-Break Space")
    } else if c == 0x85 {
        Some("Next Line")
    } else if c == 0x1680 {
        Some("Ogham Space Mark")
    } else if c == 0x180e {
        Some("Mongolian Vowel Separator")
    } else if c == 0xfeff {
        Some("Zero Width No-Break Space")
    } else if c == 0x2000 {
        Some("En Quad")
    } else if c == 0x2001 {
        Some("Em Quad")
    } else if c == 0x2002 {
        Some("En Space")
    } else if c == 0x2003 {
        Some("Em Space")
    } else if c == 0x2004 {
        Some("Tree-Per-Em")
    } else if c == 0x2005 {
        Some("Four-Per-Em")
    } else if c == 0x2006 {
        Some("Six-Per-Em")
    } else if c == 0x2007 {
        Some("Figure Space")
    } else if c == 0x2008 {
        Some("Punctuation Space")
    } else if c == 0x2009 {
        Some("Thin Space")
    } else if c == 0x200a {
        Some("Hair Space")
    } else if c == 0x200b {
        Some("Zero Width Space")
    } else if c == 0x2028 {
        Some("Line Separator")
    } else if c == 0x2029 {
        Some("Paragraph Separator")
    } else if c == 0x202f {
        Some("Narrow No-Break space")
    } else if c == 0x205f {
        Some("Medium Mathematical Space")
    } else if c == 0x3000 {
        Some("Ideographic Space")
    } else {
        None
    }
}

/// Whether any byte of the text can start an irregular whitespace
/// character.
pub fn short_circuit_pass(bytes: &[u8]) -> (r: bool)
    ensures
        r == exists|i: int| 0 <= i < bytes@.len() && is_first_byte(#[trigger] bytes@[i]),
{
    let mut i: usize = 0;
    while i < bytes.len()
        invariant
            i <= bytes.len(),
            forall|k: int| 0 <= k < i ==> !is_first_byte(#[trigger] bytes@[k]),
        decreases bytes.len() - i,
    {
        if is_first_byte(bytes[i]) {
            return true;
        }
        i = i + 1;
    }
    false
}

/// The offsets of the bytes that can start an irregular whitespace
/// character, in rising order.
pub fn spanned_byte_matches(bytes: &[u8]) -> (r: Vec<usize>)
    ensures
        forall|k: int|
            0 <= k < r@.len() ==> r@[k] < bytes@.len() && is_first_byte(bytes@[r@[k] as int]),
        forall|j: int, k: int| 0 <= j < k < r@.len() ==> r@[j] < r@[k],
        forall|i: int|
            0 <= i < bytes@.len() && is_first_byte(#[trigger] bytes@[i]) ==> r@.contains(
                i as usize,
            ),
{
    let mut collected: Vec<usize> = Vec::new();
    let mut i: usize = 0;
    while i < bytes.len()
        invariant
            i <= bytes.len(),
            forall|k: int|
                0 <= k < collected@.len() ==> collected@[k] < i && is_first_byte(
                    bytes@[collected@[k] as int],
                ),
            forall|j: int, k: int| 0 <= j < k < collected@.len() ==> collected@[j] < collected@[k],
            forall|n: int|
                0 <= n < i && is_first_byte(#[trigger] bytes@[n]) ==> collected@.contains(
                    n as usize,
                ),
        decreases bytes.len() - i,
    {
        if is_first_byte(bytes[i]) {
            let ghost before = collected@;
            collected.push(i);
            assert(collected@[before.len() as int] == i);
            assert forall|n: int|
                0 <= n <= i && is_first_byte(#[trigger] bytes@[n]) implies collected@.contains(
                n as usize,
            ) by {
                if n < i {
                    let k = choose|k: int| 0 <= k < before.len() && before[k] == n as usize;
                    assert(collected@[k] == n as usize);
                }
            }
        }
        i = i + 1;
    }
    collected
}

/// The first token that covers the bytes from `start` up to `end`, if there
/// is one. A range that reaches over the end of a token has none.
pub fn covering_token(tokens: &[Token], start: usize, end: usize) -> (r: Option<usize>)
    requires
        start <= end,
    ensures
        match r {
            Some(k) => covers(tokens@, k as int, start as int, end as int) && forall|j: int|
                0 <= j < k ==> !covers(tokens@, j, start as int, end as int),
            None => forall|j: int| !covers(tokens@, j, start as int, end as int),
        },
{
    let mut k: usize = 0;
    let mut before: usize = 0;
    while k < tokens.len()
        invariant
            k <= tokens.len(),
            before == token_start(tokens@, k as int),
            before <= start <= end,
            forall|j: int| 0 <= j < k ==> !covers(tokens@, j, start as int, end as int),
        decreases tokens.len() - k,
    {
        let len = tokens[k].len;
        if end - before <= len {
            return Some(k);
        }
        if start - before < len {
            assert forall|j: int| !covers(tokens@, j, start as int, end as int) by {
                if j > k {
                    lemma_token_start_grows(tokens@, k + 1, j);
                }
            }
            return None;
        }
        before = before + len;
        k = k + 1;
    }
    None
}

impl NoIrregularWhitespace {
    /// Whether irregular whitespace inside a token of this kind is let
    /// pass.
    pub open spec fn exempts(self, kind: SyntaxKind) -> bool {
        ||| kind == SyntaxKind::COMMENT && self.skip_comments
        ||| kind == SyntaxKind::REGEX && self.skip_regex
        ||| kind == SyntaxKind::STRING && self.skip_strings
        ||| kind == SyntaxKind::TEMPLATE_CHUNK && self.skip_templates
    }

    /// Whether the character at offset `i` of `s` is reported: it is
    /// irregular whitespace, and no token that covers it lets it pass.
    pub open spec fn reports(self, s: Seq<u8>, tokens: Seq<Token>, i: int) -> bool {
        &&& 0 <= i < s.len()
        &&& boundary(s, i)
        &&& is_irregular_whitespace(char_at(s, i))
        &&& forall|k: int| covers(tokens, k, i, next_at(s, i)) ==> !self.exempts(tokens[k].kind)
    }

    /// Whether irregular whitespace inside a token of this kind is let
    /// pass.
    pub fn is_exempt(&self, kind: SyntaxKind) -> (r: bool)
        ensures
            r == self.exempts(kind),
    {
        (kind == SyntaxKind::COMMENT && self.skip_comments) || (kind == SyntaxKind::REGEX
            && self.skip_regex) || (kind == SyntaxKind::STRING && self.skip_strings) || (kind
            == SyntaxKind::TEMPLATE_CHUNK && self.skip_templates)
    }

    /// Reports the irregular whitespace character that takes the bytes from
    /// `byte_match` up to `end`, unless a token covers it that lets it pass.
    pub fn maybe_throw_err(
        &self,
        byte_match: usize,
        end: usize,
        offending_char: u32,
        tokens: &[Token],
    ) -> (r: Option<Violation>)
        requires
            byte_match < end,
        ensures
            r == if forall|k: int|
                covers(tokens@, k, byte_match as int, end as int) ==> !self.exempts(
                    tokens@[k].kind,
                ) {
                Some(
                    Violation {
                        offset: byte_match,
                        len: (end - byte_match) as usize,
                        character: offending_char,
                    },
                )
            } else {
                None
            },
    {
        let found = Violation {
            offset: byte_match,
            len: end - byte_match,
            character: offending_char,
        };
        match covering_token(tokens, byte_match, end) {
            Some(k) => {
                if self.is_exempt(tokens[k].kind) {
                    None
                } else {
                    assert forall|j: int|
                        covers(tokens@, j, byte_match as int, end as int) implies !self.exempts(
                        tokens@[j].kind,
                    ) by {
                        lemma_cover_unique(tokens@, j, k as int, byte_match as int, end as int);
                    }
                    Some(found)
                }
            },
            None => Some(found),
        }
    }

    /// Checks a text with its tokens: reports every irregular whitespace
    /// character that no token covers which lets it pass, in the order of
    /// the text.
    pub fn check_root(&self, source: &str, tokens: &[Token]) -> (r: Vec<Violation>)
        ensures
            forall|n: int|
                0 <= n < r@.len() ==> {
                    let at = (#[trigger] r@[n]).offset as int;
                    &&& self.reports(source.spec_bytes(), tokens@, at)
                    &&& r@[n].len == width_at(source.spec_bytes(), at)
                    &&& r@[n].character == char_at(source.spec_bytes(), at)
                },
            forall|m: int, n: int| 0 <= m < n < r@.len() ==> r@[m].offset < r@[n].offset,
            forall|i: int|
                self.reports(source.spec_bytes(), tokens@, i) ==> exists|n: int|
                    0 <= n < r@.len() && (#[trigger] r@[n]).offset == i,
    {
        let bytes = source.as_bytes();
        let ghost s = bytes@;
        proof {
            encode_utf8_valid_utf8(source@);
            assert forall|i: int| self.reports(s, tokens@, i) implies is_first_byte(s[i]) by {
                lemma_first_byte(s, i);
            }
        }
        let mut found: Vec<Violation> = Vec::new();
        if !short_circuit_pass(bytes) {
            return found;
        }
        let matches = spanned_byte_matches(bytes);
        let mut n: usize = 0;
        while n < matches.len()
            invariant
                s == bytes@,
                s == source.spec_bytes(),
                valid_utf8(s),
                n <= matches@.len(),
                forall|k: int|
                    0 <= k < matches@.len() ==> matches@[k] < s.len() && is_first_byte(
                        s[matches@[k] as int],
                    ),
                forall|j: int, k: int| 0 <= j < k < matches@.len() ==> matches@[j] < matches@[k],
                forall|i: int|
                    0 <= i < s.len() && is_first_byte(#[trigger] s[i]) ==> matches@.contains(
                        i as usize,
                    ),
                forall|i: int| self.reports(s, tokens@, i) ==> is_first_byte(s[i]),
                forall|k: int|
                    0 <= k < found@.len() ==> {
                        let at = (#[trigger] found@[k]).offset as int;
                        &&& self.reports(s, tokens@, at)
                        &&& found@[k].len == width_at(s, at)
                        &&& found@[k].character == char_at(s, at)
                        &&& n > 0
                        &&& at <= matches@[n - 1]
                    },
                forall|j: int, k: int|
                    0 <= j < k < found@.len() ==> found@[j].offset < found@[k].offset,
                forall|i: int|
                    self.reports(s, tokens@, i) && (n < matches@.len() ==> i < matches@[n as int])
                        ==> exists|k: int|
                        0 <= k < found@.len() && (#[trigger] found@[k]).offset == i,
            decreases matches.len() - n,
        {
            let byte_match = matches[n];
            let ghost before = found@;
            let ghost mut added = false;
            if !is_continuation(bytes[byte_match]) {
                let (offending_char, width) = decode_at(bytes, byte_match);
                if is_irregular_whitespace(offending_char) {
                    match self.maybe_throw_err(
                        byte_match,
                        byte_match + width,
                        offending_char,
                        tokens,
                    ) {
                        Some(violation) => {
                            found.push(violation);
                            proof {
                                added = true;
                            }
                        },
                        None => {},
                    }
                }
            }
            proof {
                assert(added <==> self.reports(s, tokens@, byte_match as int));
                assert forall|i: int|
                    self.reports(s, tokens@, i) && (n + 1 < matches@.len() ==> i < matches@[n + 1])
                    implies exists|k: int|
                    0 <= k < found@.len() && (#[trigger] found@[k]).offset == i by {
                    if i < byte_match {
                        let k = choose|k: int|
                            0 <= k < before.len() && (#[trigger] before[k]).offset == i;
                        assert(found@[k].offset == i);
                    } else if i == byte_match {
                        assert(found@[before.len() as int].offset == i);
                    } else {
                        let q = choose|q: int| 0 <= q < matches@.len() && matches@[q] == i as usize;
                        if q <= n {
                            assert(matches@[q] <= matches@[n as int]);
                        }
                    }
                }
            }
            n = n + 1;
        }
        found
    }
}

} // verus!
