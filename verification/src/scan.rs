//! The sub-scanners, one per lexical category. Each starts on a character
//! boundary of valid UTF-8 and says where its token ends.

pub mod dispatch;
pub mod ident;
pub mod number;
pub mod punct;
pub mod regex;
pub mod string;
pub mod template;
pub mod trivia;
