//! A lossless tokenizer for JavaScript source text.
//!
//! Every byte of the input ends up in exactly one token, malformed input
//! becomes error tokens instead of failures, and the token lengths always
//! add up to the length of the source.
//!
//! - [`utf8`], [`classify`] and [`tables`] say where characters start, what
//!   code point they hold and to which classes it belongs.
//! - [`cursor`] is a read head that never stops inside a character.
//! - [`scan`] holds the grammar: for each lexical category a definition of
//!   where its token ends, and a scanner that is proved to find that end.
//! - [`state`] is what decides between a regular expression and a division,
//!   and between the text and the interpolations of a template literal.
//! - [`lexer`] hands out the tokens, and proves what holds of every text:
//!   that its tokens are lossless, finite and unique, and that none of them
//!   splits a character.
//! - [`rules`] reads the tokens: a rule against irregular whitespace.

pub mod classify;
pub mod cursor;
pub mod lexer;
pub mod rules;
pub mod scan;
pub mod state;
pub mod tables;
pub mod token;
pub mod utf8;

pub use lexer::{tokenize, Lexer, LexerReturn};
pub use token::{Diagnostic, ErrorKind, SyntaxKind, Token};
