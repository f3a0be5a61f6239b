//! Rules that read the token stream of a text.

pub mod no_irregular_whitespace;
