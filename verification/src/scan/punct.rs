//! Punctuators, matched greedily: the longest one that the text spells.

use crate::classify::is_decimal_digit;
use crate::token::SyntaxKind;
use crate::utf8::{boundary, lemma_ascii_step};
use vstd::prelude::*;
use vstd::utf8::valid_utf8;

verus! {

/// The punctuators of one byte.
pub open spec fn punctuator_1(a: u8) -> Option<SyntaxKind> {
    if a == ';' as u8 {
        Some(SyntaxKind::SEMICOLON)
    } else if a == ',' as u8 {
        Some(SyntaxKind::COMMA)
    } else if a == '(' as u8 {
        Some(SyntaxKind::L_PAREN)
    } else if a == ')' as u8 {
        Some(SyntaxKind::R_PAREN)
    } else if a == '{' as u8 {
        Some(SyntaxKind::L_CURLY)
    } else if a == '}' as u8 {
        Some(SyntaxKind::R_CURLY)
    } else if a == '[' as u8 {
        Some(SyntaxKind::L_BRACK)
    } else if a == ']' as u8 {
        Some(SyntaxKind::R_BRACK)
    } else if a == '<' as u8 {
        Some(SyntaxKind::L_ANGLE)
    } else if a == '>' as u8 {
        Some(SyntaxKind::R_ANGLE)
    } else if a == '~' as u8 {
        Some(SyntaxKind::TILDE)
    } else if a == '?' as u8 {
        Some(SyntaxKind::QUESTION)
    } else if a == '&' as u8 {
        Some(SyntaxKind::AMP)
    } else if a == '|' as u8 {
        Some(SyntaxKind::PIPE)
    } else if a == '+' as u8 {
        Some(SyntaxKind::PLUS)
    } else if a == '*' as u8 {
        Some(SyntaxKind::STAR)
    } else if a == '^' as u8 {
        Some(SyntaxKind::CARET)
    } else if a == '%' as u8 {
        Some(SyntaxKind::PERCENT)
    } else if a == '.' as u8 {
        Some(SyntaxKind::DOT)
    } else if a == ':' as u8 {
        Some(SyntaxKind::COLON)
    } else if a == '=' as u8 {
        Some(SyntaxKind::EQ)
    } else if a == '!' as u8 {
        Some(SyntaxKind::BANG)
    } else if a == '-' as u8 {
        Some(SyntaxKind::MINUS)
    } else if a == '@' as u8 {
        Some(SyntaxKind::AT)
    } else if a == '#' as u8 {
        Some(SyntaxKind::HASH)
    } else {
        None
    }
}

/// The punctuators of two bytes.
pub open spec fn punctuator_2(a: u8, b: u8) -> Option<SyntaxKind> {
    if a == '?' as u8 && b == '?' as u8 {
        Some(SyntaxKind::QUESTION2)
    } else if a == '?' as u8 && b == '.' as u8 {
        Some(SyntaxKind::QUESTIONDOT)
    } else if a == '+' as u8 && b == '+' as u8 {
        Some(SyntaxKind::PLUS2)
    } else if a == '*' as u8 && b == '*' as u8 {
        Some(SyntaxKind::STAR2)
    } else if a == '=' as u8 && b == '=' as u8 {
        Some(SyntaxKind::EQ2)
    } else if a == '=' as u8 && b == '>' as u8 {
        Some(SyntaxKind::FAT_ARROW)
    } else if a == '!' as u8 && b == '=' as u8 {
        Some(SyntaxKind::NEQ)
    } else if a == '-' as u8 && b == '-' as u8 {
        Some(SyntaxKind::MINUS2)
    } else if a == '<' as u8 && b == '=' as u8 {
        Some(SyntaxKind::LTEQ)
    } else if a == '>' as u8 && b == '=' as u8 {
        Some(SyntaxKind::GTEQ)
    } else if a == '+' as u8 && b == '=' as u8 {
        Some(SyntaxKind::PLUSEQ)
    } else if a == '-' as u8 && b == '=' as u8 {
        Some(SyntaxKind::MINUSEQ)
    } else if a == '|' as u8 && b == '=' as u8 {
        Some(SyntaxKind::PIPEEQ)
    } else if a == '&' as u8 && b == '=' as u8 {
        Some(SyntaxKind::AMPEQ)
    } else if a == '^' as u8 && b == '=' as u8 {
        Some(SyntaxKind::CARETEQ)
    } else if a == '*' as u8 && b == '=' as u8 {
        Some(SyntaxKind::STAREQ)
    } else if a == '%' as u8 && b == '=' as u8 {
        Some(SyntaxKind::PERCENTEQ)
    } else if a == '&' as u8 && b == '&' as u8 {
        Some(SyntaxKind::AMP2)
    } else if a == '|' as u8 && b == '|' as u8 {
        Some(SyntaxKind::PIPE2)
    } else if a == '<' as u8 && b == '<' as u8 {
        Some(SyntaxKind::SHL)
    } else if a == '>' as u8 && b == '>' as u8 {
        Some(SyntaxKind::SHR)
    } else {
        None
    }
}

/// The punctuators of three bytes.
pub open spec fn punctuator_3(a: u8, b: u8, c: u8) -> Option<SyntaxKind> {
    if a == '.' as u8 && b == '.' as u8 && c == '.' as u8 {
        Some(SyntaxKind::DOT2)
    } else if a == '=' as u8 && b == '=' as u8 && c == '=' as u8 {
        Some(SyntaxKind::EQ3)
    } else if a == '!' as u8 && b == '=' as u8 && c == '=' as u8 {
        Some(SyntaxKind::NEQ2)
    } else if a == '>' as u8 && b == '>' as u8 && c == '>' as u8 {
        Some(SyntaxKind::USHR)
    } else if a == '<' as u8 && b == '<' as u8 && c == '=' as u8 {
        Some(SyntaxKind::SHLEQ)
    } else if a == '>' as u8 && b == '>' as u8 && c == '=' as u8 {
        Some(SyntaxKind::SHREQ)
    } else if a == '&' as u8 && b == '&' as u8 && c == '=' as u8 {
        Some(SyntaxKind::AMP2EQ)
    } else if a == '|' as u8 && b == '|' as u8 && c == '=' as u8 {
        Some(SyntaxKind::PIPE2EQ)
    } else if a == '*' as u8 && b == '*' as u8 && c == '=' as u8 {
        Some(SyntaxKind::STAR2EQ)
    } else if a == '?' as u8 && b == '?' as u8 && c == '=' as u8 {
        Some(SyntaxKind::QUESTION2EQ)
    } else {
        None
    }
}

/// The punctuator of four bytes.
pub open spec fn punctuator_4(a: u8, b: u8, c: u8, d: u8) -> Option<SyntaxKind> {
    if a == '>' as u8 && b == '>' as u8 && c == '>' as u8 && d == '=' as u8 {
        Some(SyntaxKind::USHREQ)
    } else {
        None
    }
}
/// The byte at offset `i`, 0 behind the end of the input.
pub open spec fn byte_or_nul(s: Seq<u8>, i: int) -> u8 {
    if 0 <= i < s.len() {
        s[i]
    } else {
        0
    }
}

/// The longest punctuator that starts the bytes `a`, `b`, `c`, `d`, and its
/// length. `?.` before a digit is no punctuator: there the `?` stands alone.
pub open spec fn longest_punctuator(a: u8, b: u8, c: u8, d: u8) -> Option<(SyntaxKind, int)> {
    if let Some(kind) = punctuator_4(a, b, c, d) {
        Some((kind, 4))
    } else if let Some(kind) = punctuator_3(a, b, c) {
        Some((kind, 3))
    } else if punctuator_2(a, b) is Some && !(a == '?' as u8 && b == '.' as u8 && is_decimal_digit(
        c,
    )) {
        Some((punctuator_2(a, b)->0, 2))
    } else if let Some(kind) = punctuator_1(a) {
        Some((kind, 1))
    } else {
        None
    }
}

/// The punctuator at offset `i` and the offset behind it.
pub open spec fn punctuator_at(s: Seq<u8>, i: int) -> Option<(SyntaxKind, int)> {
    match longest_punctuator(
        byte_or_nul(s, i),
        byte_or_nul(s, i + 1),
        byte_or_nul(s, i + 2),
        byte_or_nul(s, i + 3),
    ) {
        Some((kind, n)) => Some((kind, i + n)),
        None => None,
    }
}

/// Length of the punctuator at offset `i`, 0 where none stands.
pub open spec fn punctuator_len(s: Seq<u8>, i: int) -> int {
    match punctuator_at(s, i) {
        Some((_, e)) => e - i,
        None => 0,
    }
}

/// Greedy matching: no punctuator that the text at `i` spells is longer than
/// the one found there, but for `?.` before a digit. What is found lies
/// inside the input.
pub proof fn lemma_longest_match(s: Seq<u8>, i: int)
    requires
        0 <= i <= s.len(),
    ensures
        punctuator_4(
            byte_or_nul(s, i),
            byte_or_nul(s, i + 1),
            byte_or_nul(s, i + 2),
            byte_or_nul(s, i + 3),
        ) is Some ==> punctuator_len(s, i) == 4,
        punctuator_3(byte_or_nul(s, i), byte_or_nul(s, i + 1), byte_or_nul(s, i + 2)) is Some
            ==> punctuator_len(s, i) >= 3,
        punctuator_2(byte_or_nul(s, i), byte_or_nul(s, i + 1)) is Some && !(byte_or_nul(s, i)
            == '?' as u8 && is_decimal_digit(byte_or_nul(s, i + 2))) ==> punctuator_len(s, i) >= 2,
        punctuator_1(byte_or_nul(s, i)) is Some ==> punctuator_len(s, i) >= 1,
        0 <= punctuator_len(s, i) <= 4,
        i + punctuator_len(s, i) <= s.len(),
        forall|k: int| i <= k < i + punctuator_len(s, i) ==> #[trigger] s[k] < 0x80,
{
    let n = punctuator_len(s, i);
    let (a, b, c, d) = (
        byte_or_nul(s, i),
        byte_or_nul(s, i + 1),
        byte_or_nul(s, i + 2),
        byte_or_nul(s, i + 3),
    );
    assert(n >= 1 ==> a != 0 && a < 0x80);
    assert(n >= 2 ==> b != 0 && b < 0x80);
    assert(n >= 3 ==> c != 0 && c < 0x80);
    assert(n >= 4 ==> d != 0 && d < 0x80);
}

fn peek(src: &[u8], i: usize, k: usize) -> (b: u8)
    requires
        i < src.len(),
        k <= 3,
    ensures
        b == byte_or_nul(src@, i + k),
{
    if src.len() - i > k {
        src[i + k]
    } else {
        0
    }
}

fn when_eq(next: u8, assign: SyntaxKind, plain: SyntaxKind) -> (r: (SyntaxKind, usize))
    ensures
        r == if next == '=' as u8 {
            (assign, 2usize)
        } else {
            (plain, 1usize)
        },
{
    if next == '=' as u8 {
        (assign, 2)
    } else {
        (plain, 1)
    }
}

fn doubled(
    a: u8,
    b: u8,
    c: u8,
    twice_assign: SyntaxKind,
    twice: SyntaxKind,
    assign: SyntaxKind,
    plain: SyntaxKind,
) -> (r: (SyntaxKind, usize))
    ensures
        r == if b == a && c == '=' as u8 {
            (twice_assign, 3usize)
        } else if b == a {
            (twice, 2usize)
        } else if b == '=' as u8 {
            (assign, 2usize)
        } else {
            (plain, 1usize)
        },
{
    if b == a {
        if c == '=' as u8 {
            (twice_assign, 3)
        } else {
            (twice, 2)
        }
    } else {
        when_eq(b, assign, plain)
    }
}

/// Finds the longest punctuator that starts the bytes `a`, `b`, `c`, `d`.
pub fn match_punctuator(a: u8, b: u8, c: u8, d: u8) -> (r: Option<(SyntaxKind, usize)>)
    ensures
        match r {
            Some((kind, n)) => longest_punctuator(a, b, c, d) == Some((kind, n as int)),
            None => longest_punctuator(a, b, c, d) is None,
        },
{
    let eq = '=' as u8;
    if a == '<' as u8 {
        Some(
            doubled(
                a,
                b,
                c,
                SyntaxKind::SHLEQ,
                SyntaxKind::SHL,
                SyntaxKind::LTEQ,
                SyntaxKind::L_ANGLE,
            ),
        )
    } else if a == '>' as u8 {
        if b == a && c == a {
            if d == eq {
                Some((SyntaxKind::USHREQ, 4))
            } else {
                Some((SyntaxKind::USHR, 3))
            }
        } else {
            Some(
                doubled(
                    a,
                    b,
                    c,
                    SyntaxKind::SHREQ,
                    SyntaxKind::SHR,
                    SyntaxKind::GTEQ,
                    SyntaxKind::R_ANGLE,
                ),
            )
        }
    } else if a == eq {
        if b == eq {
            if c == eq {
                Some((SyntaxKind::EQ3, 3))
            } else {
                Some((SyntaxKind::EQ2, 2))
            }
        } else if b == '>' as u8 {
            Some((SyntaxKind::FAT_ARROW, 2))
        } else {
            Some((SyntaxKind::EQ, 1))
        }
    } else if a == '!' as u8 {
        if b == eq && c == eq {
            Some((SyntaxKind::NEQ2, 3))
        } else {
            Some(when_eq(b, SyntaxKind::NEQ, SyntaxKind::BANG))
        }
    } else if a == '+' as u8 {
        if b == a {
            Some((SyntaxKind::PLUS2, 2))
        } else {
            Some(when_eq(b, SyntaxKind::PLUSEQ, SyntaxKind::PLUS))
        }
    } else if a == '-' as u8 {
        if b == a {
            Some((SyntaxKind::MINUS2, 2))
        } else {
            Some(when_eq(b, SyntaxKind::MINUSEQ, SyntaxKind::MINUS))
        }
    } else if a == '*' as u8 {
        Some(
            doubled(
                a,
                b,
                c,
                SyntaxKind::STAR2EQ,
                SyntaxKind::STAR2,
                SyntaxKind::STAREQ,
                SyntaxKind::STAR,
            ),
        )
    } else if a == '&' as u8 {
        Some(
            doubled(
                a,
                b,
                c,
                SyntaxKind::AMP2EQ,
                SyntaxKind::AMP2,
                SyntaxKind::AMPEQ,
                SyntaxKind::AMP,
            ),
        )
    } else if a == '|' as u8 {
        Some(
            doubled(
                a,
                b,
                c,
                SyntaxKind::PIPE2EQ,
                SyntaxKind::PIPE2,
                SyntaxKind::PIPEEQ,
                SyntaxKind::PIPE,
            ),
        )
    } else if a == '%' as u8 {
        Some(when_eq(b, SyntaxKind::PERCENTEQ, SyntaxKind::PERCENT))
    } else if a == '^' as u8 {
        Some(when_eq(b, SyntaxKind::CARETEQ, SyntaxKind::CARET))
    } else if a == '?' as u8 {
        if b == a {
            if c == eq {
                Some((SyntaxKind::QUESTION2EQ, 3))
            } else {
                Some((SyntaxKind::QUESTION2, 2))
            }
        } else if b == '.' as u8 && !is_decimal_digit(c) {
            Some((SyntaxKind::QUESTIONDOT, 2))
        } else {
            Some((SyntaxKind::QUESTION, 1))
        }
    } else if a == '.' as u8 {
        if b == a && c == a {
            Some((SyntaxKind::DOT2, 3))
        } else {
            Some((SyntaxKind::DOT, 1))
        }
    } else if a == ';' as u8 {
        Some((SyntaxKind::SEMICOLON, 1))
    } else if a == ',' as u8 {
        Some((SyntaxKind::COMMA, 1))
    } else if a == '(' as u8 {
        Some((SyntaxKind::L_PAREN, 1))
    } else if a == ')' as u8 {
        Some((SyntaxKind::R_PAREN, 1))
    } else if a == '{' as u8 {
        Some((SyntaxKind::L_CURLY, 1))
    } else if a == '}' as u8 {
        Some((SyntaxKind::R_CURLY, 1))
    } else if a == '[' as u8 {
        Some((SyntaxKind::L_BRACK, 1))
    } else if a == ']' as u8 {
        Some((SyntaxKind::R_BRACK, 1))
    } else if a == '~' as u8 {
        Some((SyntaxKind::TILDE, 1))
    } else if a == ':' as u8 {
        Some((SyntaxKind::COLON, 1))
    } else if a == '@' as u8 {
        Some((SyntaxKind::AT, 1))
    } else if a == '#' as u8 {
        Some((SyntaxKind::HASH, 1))
    } else {
        None
    }
}

/// Scans the punctuator at offset `i`, if one stands there.
pub fn scan_punctuator(src: &[u8], i: usize) -> (r: Option<(SyntaxKind, usize)>)
    requires
        valid_utf8(src@),
        i < src.len(),
    ensures
        match r {
            Some((kind, e)) => punctuator_at(src@, i as int) == Some((kind, e as int)) && i < e
                <= src.len() && boundary(src@, e as int),
            None => punctuator_at(src@, i as int) is None,
        },
{
    let found = match_punctuator(src[i], peek(src, i, 1), peek(src, i, 2), peek(src, i, 3));
    match found {
        Some((kind, n)) => {
            proof {
                lemma_longest_match(src@, i as int);
                assert(src@[i + n - 1] < 0x80);
                lemma_ascii_step(src@, i + n - 1);
            }
            Some((kind, i + n))
        },
        None => None,
    }
}

} // verus!
