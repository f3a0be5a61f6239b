//! A read head over the source text. It only moves forward, and it never
//! stops inside a character.

use crate::utf8::{boundary, char_at, decode_at, next_at};
use vstd::prelude::*;
use vstd::string::*;
use vstd::utf8::{encode_utf8_valid_utf8, valid_utf8};

verus! {

/// A position in a source text.
pub struct Cursor<'a> {
    src: &'a [u8],
    pos: usize,
}

impl<'a> Cursor<'a> {
    #[verifier::type_invariant]
    spec fn placed(self) -> bool {
        valid_utf8(self.src@) && boundary(self.src@, self.pos as int)
    }

    /// The bytes of the source text.
    pub closed spec fn source(&self) -> Seq<u8> {
        self.src@
    }

    /// The byte offset of the read head.
    pub closed spec fn position(&self) -> usize {
        self.pos
    }

    /// A cursor at the start of `text`.
    pub fn new(text: &'a str) -> (c: Cursor<'a>)
        ensures
            c.source() == text.spec_bytes(),
            c.position() == 0,
    {
        proof {
            encode_utf8_valid_utf8(text@);
        }
        Cursor { src: text.as_bytes(), pos: 0 }
    }

    /// The source text. It is valid UTF-8, and the read head stands on a
    /// character boundary of it.
    pub fn bytes(&self) -> (r: &'a [u8])
        ensures
            r@ == self.source(),
            valid_utf8(r@),
            boundary(r@, self.position() as int),
    {
        proof {
            use_type_invariant(self);
        }
        self.src
    }

    /// The byte offset of the read head.
    pub fn offset(&self) -> (r: usize)
        ensures
            r == self.position(),
            r <= self.source().len(),
    {
        proof {
            use_type_invariant(self);
        }
        self.pos
    }

    /// Whether the read head stands at the end of the text.
    pub fn is_eof(&self) -> (r: bool)
        ensures
            r == (self.position() >= self.source().len()),
    {
        self.pos >= self.src.len()
    }

    /// The character at the read head, if the text has not ended.
    pub fn peek(&self) -> (r: Option<u32>)
        ensures
            r == if self.position() < self.source().len() {
                Some(char_at(self.source(), self.position() as int))
            } else {
                None
            },
    {
        proof {
            use_type_invariant(self);
        }
        if self.pos < self.src.len() {
            Some(decode_at(self.src, self.pos).0)
        } else {
            None
        }
    }

    /// Moves the read head behind the character it stands on, and returns
    /// that character. At the end of the text nothing moves.
    pub fn advance(&mut self) -> (r: Option<u32>)
        ensures
            final(self).source() == old(self).source(),
            r == if old(self).position() < old(self).source().len() {
                Some(char_at(old(self).source(), old(self).position() as int))
            } else {
                None
            },
            final(self).position() == if old(self).position() < old(self).source().len() {
                next_at(old(self).source(), old(self).position() as int)
            } else {
                old(self).position() as int
            },
    {
        proof {
            use_type_invariant(&*self);
        }
        if self.pos < self.src.len() {
            let (c, w) = decode_at(self.src, self.pos);
            self.pos = self.pos + w;
            Some(c)
        } else {
            None
        }
    }

    /// Moves the read head forward to the character boundary `to`.
    pub fn seek(&mut self, to: usize)
        requires
            old(self).position() <= to,
            boundary(old(self).source(), to as int),
        ensures
            final(self).source() == old(self).source(),
            final(self).position() == to,
        no_unwind
    {
        proof {
            use_type_invariant(&*self);
        }
        self.pos = to;
    }
}

} // verus!
