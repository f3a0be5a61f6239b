//! The tokenizer: it hands out the tokens of a source text one by one,
//! then one end-of-file token, then nothing.

use crate::cursor::Cursor;
use crate::scan::dispatch::{lemma_token_in, scan_token, token_in};
use crate::scan::trivia::{line_end, scan_line};
use crate::state::{LexerState, State};
use crate::token::{Diagnostic, Lexed, SyntaxKind, Token};
use crate::utf8::{boundary, byte_is, is_at, lemma_ascii_step, lemma_boundary_is_char_boundary};
use vstd::prelude::*;
use vstd::string::*;
use vstd::utf8::{is_char_boundary, valid_utf8};

verus! {

/// What the tokenizer yields: a token, and what is wrong with it, if
/// anything.
pub type LexerReturn = (Token, Option<Diagnostic>);

/// The token at offset `i` of `s` in the state `st`.
pub open spec fn token_at(s: Seq<u8>, i: int, st: State) -> Lexed {
    token_in(s, i, st.in_template(), st.regex_allowed())
}

/// What the tokenizer yields at offset `i` of `s` in the state `st`: the
/// token there with its length, and a diagnostic over its bytes where it is
/// malformed.
pub open spec fn item_at(s: Seq<u8>, file_id: usize, i: int, st: State) -> LexerReturn {
    let lexed = token_at(s, i, st);
    (
        Token { kind: lexed.kind, len: (lexed.end - i) as usize },
        match lexed.error {
            Some(kind) => Some(
                Diagnostic { file_id, kind, start: i as usize, end: lexed.end as usize },
            ),
            None => None,
        },
    )
}

/// The end-of-file token.
pub open spec fn eof_item() -> LexerReturn {
    (Token { kind: SyntaxKind::EOF, len: 0 }, None)
}

/// `items` is the tokenization of `s` from offset `i` in the state `st`:
/// each item is the token at the offset where the one before it ends, in
/// the state which that one leaves, and behind the token that reaches the
/// end of `s` stands the end-of-file token, last.
pub open spec fn lexes(
    s: Seq<u8>,
    file_id: usize,
    i: int,
    st: State,
    items: Seq<LexerReturn>,
) -> bool
    decreases items.len(),
{
    if i >= s.len() {
        items == seq![eof_item()]
    } else {
        &&& items.len() > 0
        &&& items[0] == item_at(s, file_id, i, st)
        &&& lexes(
            s,
            file_id,
            i + items[0].0.len,
            st.after(items[0].0.kind),
            items.drop_first(),
        )
    }
}

/// The sum of the lengths of the tokens.
pub open spec fn total_len(items: Seq<LexerReturn>) -> int
    decreases items.len(),
{
    if items.len() == 0 {
        0
    } else {
        items[0].0.len + total_len(items.drop_first())
    }
}

/// The slices of `s` that the tokens cover one after the other from offset
/// `i`, joined.
pub open spec fn rebuilt(s: Seq<u8>, i: int, items: Seq<LexerReturn>) -> Seq<u8>
    decreases items.len(),
{
    if items.len() == 0 {
        Seq::empty()
    } else {
        s.subrange(i, i + items[0].0.len) + rebuilt(s, i + items[0].0.len, items.drop_first())
    }
}

/// Progress: wherever a token starts on a character boundary of a text, it
/// is at least one byte long, it ends on a character boundary inside the
/// text, and it is no end of file. No input stops the tokenizer or makes it
/// fail, and it never stops inside a character.
pub proof fn lemma_progress(s: Seq<u8>, file_id: usize, i: int, st: State)
    requires
        valid_utf8(s),
        s.len() <= usize::MAX,
        boundary(s, i),
        i < s.len(),
    ensures
        i < token_at(s, i, st).end <= s.len(),
        boundary(s, token_at(s, i, st).end),
        token_at(s, i, st).kind != SyntaxKind::EOF,
        item_at(s, file_id, i, st).0.len == token_at(s, i, st).end - i,
        item_at(s, file_id, i, st).0.kind == token_at(s, i, st).kind,
{
    lemma_token_in(s, i, st.in_template(), st.regex_allowed());
}

/// Losslessness: the lengths of the tokens of a text add up to the length
/// of the text, and the slices that they cover, joined in order, are the
/// text again. This holds from any character boundary for the rest of the
/// text, and so for the empty text, whose only token is the end of file.
pub proof fn lemma_lossless(
    s: Seq<u8>,
    file_id: usize,
    i: int,
    st: State,
    items: Seq<LexerReturn>,
)
    requires
        valid_utf8(s),
        s.len() <= usize::MAX,
        boundary(s, i),
        lexes(s, file_id, i, st, items),
    ensures
        total_len(items) == s.len() - i,
        rebuilt(s, i, items) == s.subrange(i, s.len() as int),
        i == 0 ==> rebuilt(s, i, items) == s,
    decreases items.len(),
{
    assert(s.subrange(0, s.len() as int) =~= s);
    if i >= s.len() {
        reveal_with_fuel(total_len, 2);
        reveal_with_fuel(rebuilt, 2);
        assert(items.drop_first().len() == 0);
        assert(rebuilt(s, i, items) =~= s.subrange(i, s.len() as int));
    } else {
        lemma_progress(s, file_id, i, st);
        let n = items[0].0.len as int;
        lemma_lossless(s, file_id, i + n, st.after(items[0].0.kind), items.drop_first());
        assert(s.subrange(i, i + n) + s.subrange(i + n, s.len() as int) =~= s.subrange(
            i,
            s.len() as int,
        ));
    }
}

/// Termination: the tokenization of a text is finite. Every token before
/// the end-of-file token takes at least one byte, so there are at most as
/// many of them as the text has bytes; the end-of-file token is the last
/// item, and the only one of its kind.
pub proof fn lemma_finite(s: Seq<u8>, file_id: usize, i: int, st: State, items: Seq<LexerReturn>)
    requires
        valid_utf8(s),
        s.len() <= usize::MAX,
        boundary(s, i),
        lexes(s, file_id, i, st, items),
    ensures
        1 <= items.len() <= s.len() - i + 1,
        items.last() == eof_item(),
        forall|k: int|
            0 <= k < items.len() - 1 ==> (#[trigger] items[k]).0.len >= 1 && items[k].0.kind
                != SyntaxKind::EOF,
    decreases items.len(),
{
    if i < s.len() {
        lemma_progress(s, file_id, i, st);
        let rest = items.drop_first();
        lemma_finite(s, file_id, i + items[0].0.len, st.after(items[0].0.kind), rest);
        assert(items.last() == rest.last());
        assert forall|k: int| 0 <= k < items.len() - 1 implies (#[trigger] items[k]).0.len >= 1
            && items[k].0.kind != SyntaxKind::EOF by {
            if k > 0 {
                assert(items[k] == rest[k - 1]);
            }
        }
    }
}

/// Every token of a text starts on a character boundary of the text: the
/// text can be cut into the slices that the tokens cover.
pub proof fn lemma_token_starts(
    s: Seq<u8>,
    file_id: usize,
    i: int,
    st: State,
    items: Seq<LexerReturn>,
    k: int,
)
    requires
        valid_utf8(s),
        s.len() <= usize::MAX,
        boundary(s, i),
        lexes(s, file_id, i, st, items),
        0 <= k <= items.len(),
    ensures
        boundary(s, i + total_len(items.take(k))),
        is_char_boundary(s, i + total_len(items.take(k))),
    decreases k,
{
    if k == 0 {
        assert(items.take(0).len() == 0);
    } else if i >= s.len() {
        reveal_with_fuel(total_len, 2);
        assert(items.take(1) =~= items);
        assert(items.drop_first().len() == 0);
    } else {
        lemma_progress(s, file_id, i, st);
        let rest = items.drop_first();
        lemma_token_starts(s, file_id, i + items[0].0.len, st.after(items[0].0.kind), rest, k - 1);
        assert(items.take(k).drop_first() =~= rest.take(k - 1));
    }
    lemma_boundary_is_char_boundary(s, i + total_len(items.take(k)));
}

/// A text has one tokenization only.
pub proof fn lemma_unique(
    s: Seq<u8>,
    file_id: usize,
    i: int,
    st: State,
    a: Seq<LexerReturn>,
    b: Seq<LexerReturn>,
)
    requires
        lexes(s, file_id, i, st, a),
        lexes(s, file_id, i, st, b),
    ensures
        a == b,
    decreases a.len(),
{
    if i < s.len() {
        lemma_unique(
            s,
            file_id,
            i + a[0].0.len,
            st.after(a[0].0.kind),
            a.drop_first(),
            b.drop_first(),
        );
        assert(a =~= seq![a[0]] + a.drop_first());
        assert(b =~= seq![b[0]] + b.drop_first());
    }
}

// `items` are the tokens of `s` from offset `i` in the state `st` up to the
// offset `j`, where the state is `end`.
spec fn lexes_until(
    s: Seq<u8>,
    file_id: usize,
    i: int,
    st: State,
    items: Seq<LexerReturn>,
    j: int,
    end: State,
) -> bool
    decreases items.len(),
{
    if items.len() == 0 {
        i == j && st == end
    } else {
        &&& i < s.len()
        &&& items[0] == item_at(s, file_id, i, st)
        &&& lexes_until(
            s,
            file_id,
            i + items[0].0.len,
            st.after(items[0].0.kind),
            items.drop_first(),
            j,
            end,
        )
    }
}

proof fn lemma_until_push(
    s: Seq<u8>,
    file_id: usize,
    i: int,
    st: State,
    items: Seq<LexerReturn>,
    j: int,
    end: State,
    x: LexerReturn,
)
    requires
        lexes_until(s, file_id, i, st, items, j, end),
        j < s.len(),
        x == item_at(s, file_id, j, end),
    ensures
        lexes_until(s, file_id, i, st, items.push(x), j + x.0.len, end.after(x.0.kind)),
    decreases items.len(),
{
    let more = items.push(x);
    if items.len() == 0 {
        assert(more.drop_first() =~= Seq::empty());
        assert(lexes_until(
            s,
            file_id,
            j + x.0.len,
            end.after(x.0.kind),
            more.drop_first(),
            j + x.0.len,
            end.after(x.0.kind),
        ));
    } else {
        lemma_until_push(
            s,
            file_id,
            i + items[0].0.len,
            st.after(items[0].0.kind),
            items.drop_first(),
            j,
            end,
            x,
        );
        assert(more.drop_first() =~= items.drop_first().push(x));
    }
}

proof fn lemma_until_end(
    s: Seq<u8>,
    file_id: usize,
    i: int,
    st: State,
    items: Seq<LexerReturn>,
    j: int,
    end: State,
)
    requires
        lexes_until(s, file_id, i, st, items, j, end),
        j >= s.len(),
    ensures
        lexes(s, file_id, i, st, items.push(eof_item())),
    decreases items.len(),
{
    let all = items.push(eof_item());
    if items.len() == 0 {
        assert(all =~= seq![eof_item()]);
    } else {
        lemma_until_end(
            s,
            file_id,
            i + items[0].0.len,
            st.after(items[0].0.kind),
            items.drop_first(),
            j,
            end,
        );
        assert(all.drop_first() =~= items.drop_first().push(eof_item()));
    }
}

/// Where tokenization starts in a script: behind a first line that starts
/// with `#!`, before its line terminator; at offset 0 in any other text.
pub open spec fn shebang_end(s: Seq<u8>) -> int {
    if is_at(s, 0, '#' as u8) && is_at(s, 1, '!' as u8) {
        line_end(s, 2)
    } else {
        0
    }
}

/// A tokenizer over one source text.
pub struct Lexer<'src> {
    cursor: Cursor<'src>,
    state: LexerState,
    file_id: usize,
    returned_eof: bool,
}

impl<'src> Lexer<'src> {
    #[verifier::type_invariant]
    spec fn counted(self) -> bool {
        forall|k: int|
            0 <= k < self.state@.depths.len() ==> #[trigger] self.state@.depths[k]
                <= self.cursor.position()
    }

    /// The bytes of the source text.
    pub closed spec fn source(&self) -> Seq<u8> {
        self.cursor.source()
    }

    /// The offset at which the next token starts.
    pub closed spec fn offset(&self) -> int {
        self.cursor.position() as int
    }

    /// The state in which the next token is read.
    pub closed spec fn state(&self) -> State {
        self.state@
    }

    /// The file that the diagnostics name.
    pub closed spec fn file(&self) -> usize {
        self.file_id
    }

    /// Whether the end-of-file token has been handed out.
    pub closed spec fn finished(&self) -> bool {
        self.returned_eof
    }

    /// A tokenizer at the start of `string`.
    pub fn from_str(string: &'src str, file_id: usize) -> (lexer: Lexer<'src>)
        ensures
            lexer.source() == string.spec_bytes(),
            lexer.offset() == 0,
            lexer.state() == State::initial(),
            lexer.file() == file_id,
            !lexer.finished(),
    {
        Lexer {
            cursor: Cursor::new(string),
            state: LexerState::new(),
            file_id,
            returned_eof: false,
        }
    }

    /// The offset at which the next token starts. It never lies inside a
    /// character.
    pub fn cur(&self) -> (r: usize)
        ensures
            r == self.offset(),
            r <= self.source().len(),
            valid_utf8(self.source()),
            boundary(self.source(), r as int),
    {
        let _ = self.cursor.bytes();
        self.cursor.offset()
    }

    /// The file that the diagnostics name.
    pub fn file_id(&self) -> (r: usize)
        ensures
            r == self.file(),
    {
        self.file_id
    }

    /// Skips a first line that starts with `#!`, up to its line terminator.
    /// Behind the start of the text this does nothing.
    pub fn strip_shebang(&mut self)
        ensures
            final(self).source() == old(self).source(),
            final(self).state() == old(self).state(),
            final(self).file() == old(self).file(),
            final(self).finished() == old(self).finished(),
            final(self).offset() == if old(self).offset() == 0 {
                shebang_end(old(self).source())
            } else {
                old(self).offset()
            },
    {
        proof {
            use_type_invariant(&*self);
        }
        let src = self.cursor.bytes();
        if self.cursor.offset() == 0 && byte_is(src, 0, '#' as u8) && byte_is(src, 1, '!' as u8) {
            proof {
                lemma_ascii_step(src@, 0);
                lemma_ascii_step(src@, 1);
            }
            let end = scan_line(src, 2);
            self.cursor.seek(end);
        }
    }

    /// The next token: the token at the current offset, then once the
    /// end-of-file token, then nothing.
    pub fn next(&mut self) -> (r: Option<LexerReturn>)
        ensures
            final(self).source() == old(self).source(),
            final(self).file() == old(self).file(),
            old(self).offset() < old(self).source().len() ==> {
                let item = item_at(
                    old(self).source(),
                    old(self).file(),
                    old(self).offset(),
                    old(self).state(),
                );
                &&& r == Some(item)
                &&& item.0.kind != SyntaxKind::EOF
                &&& 1 <= item.0.len <= old(self).source().len() - old(self).offset()
                &&& final(self).offset() == old(self).offset() + item.0.len
                &&& boundary(final(self).source(), final(self).offset())
                &&& final(self).state() == old(self).state().after(item.0.kind)
                &&& final(self).finished() == old(self).finished()
            },
            old(self).offset() >= old(self).source().len() ==> {
                &&& r == if old(self).finished() {
                    None
                } else {
                    Some(eof_item())
                }
                &&& final(self).offset() == old(self).offset()
                &&& final(self).state() == old(self).state()
                &&& final(self).finished()
            },
    {
        proof {
            use_type_invariant(&*self);
        }
        let src = self.cursor.bytes();
        let start = self.cursor.offset();
        if start >= src.len() {
            if self.returned_eof {
                return None;
            }
            self.returned_eof = true;
            return Some((Token { kind: SyntaxKind::EOF, len: 0 }, None));
        }
        let found = scan_token(src, start, self.state.in_template(), self.state.regex_allowed());
        proof {
            lemma_progress(src@, self.file_id, start as int, self.state@);
        }
        self.cursor.seek(found.end);
        let mut state = LexerState::new();
        core::mem::swap(&mut self.state, &mut state);
        state.update(found.kind);
        self.state = state;
        let diagnostic = match found.error {
            Some(kind) => Some(Diagnostic { file_id: self.file_id, kind, start, end: found.end }),
            None => None,
        };
        Some((Token { kind: found.kind, len: found.end - start }, diagnostic))
    }

    /// All the tokens that are left, the end-of-file token last. From the
    /// start of a text these are all its tokens: their lengths add up to
    /// the length of the text.
    pub fn collect(self) -> (items: Vec<LexerReturn>)
        ensures
            self.finished() ==> items@.len() == 0,
            !self.finished() ==> lexes(
                self.source(),
                self.file(),
                self.offset(),
                self.state(),
                items@,
            ),
            !self.finished() ==> total_len(items@) == self.source().len() - self.offset(),
            items@.len() <= self.source().len() - self.offset() + 1,
    {
        let mut lexer = self;
        let mut items: Vec<LexerReturn> = Vec::new();
        let ghost s = lexer.source();
        let ghost file_id = lexer.file();
        let ghost from = lexer.offset();
        let ghost st = lexer.state();
        let _ = lexer.cur();
        if lexer.returned_eof {
            return items;
        }
        loop
            invariant
                s == self.source(),
                file_id == self.file(),
                from == self.offset(),
                st == self.state(),
                !self.finished(),
                valid_utf8(s),
                boundary(s, from),
                s == lexer.source(),
                file_id == lexer.file(),
                !lexer.finished(),
                0 <= from <= lexer.offset() <= s.len(),
                lexes_until(s, file_id, from, st, items@, lexer.offset(), lexer.state()),
                items@.len() <= lexer.offset() - from,
            decreases s.len() - lexer.offset(),
        {
            let at = lexer.cur();
            let ended = lexer.cursor.is_eof();
            let ghost before = lexer.state();
            match lexer.next() {
                Some(item) => {
                    if ended {
                        proof {
                            lemma_until_end(s, file_id, from, st, items@, at as int, before);
                            lemma_lossless(s, file_id, from, st, items@.push(item));
                        }
                        items.push(item);
                        return items;
                    }
                    proof {
                        lemma_until_push(s, file_id, from, st, items@, at as int, before, item);
                    }
                    items.push(item);
                },
                None => {
                    return items;
                },
            }
        }
    }
}

/// Tokenizes a whole script: skips a first line that starts with `#!`, then
/// reads the tokens of the rest. Returns the offset at which the tokens
/// start, and the tokens, the end-of-file token last.
pub fn tokenize(source: &str, file_id: usize) -> (r: (usize, Vec<LexerReturn>))
    ensures
        r.0 == shebang_end(source.spec_bytes()),
        r.0 <= source.spec_bytes().len(),
        lexes(source.spec_bytes(), file_id, r.0 as int, State::initial(), r.1@),
        total_len(r.1@) == source.spec_bytes().len() - r.0,
{
    let mut lexer = Lexer::from_str(source, file_id);
    lexer.strip_shebang();
    let start = lexer.cur();
    (start, lexer.collect())
}

} // verus!
