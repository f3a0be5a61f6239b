//! Numeric literals.

use crate::classify::{is_decimal_digit, is_digit_in};
use crate::scan::ident::{
    id_start_end, ident_end, lemma_id_start_end, lemma_ident_end, scan_id_start, scan_ident,
};
use crate::token::{ErrorKind, Lexed, Scanned, SyntaxKind};
use crate::utf8::{boundary, byte_is, is_at, lemma_ascii_step};
use vstd::prelude::*;
use vstd::utf8::valid_utf8;

verus! {

/// End of the maximal run of digits of the base `radix` and of separators
/// `_` that starts at `i`.
pub open spec fn digit_run_end(s: Seq<u8>, i: int, radix: u8) -> int
    decreases s.len() - i,
{
    if 0 <= i < s.len() && (is_digit_in(s[i], radix) || s[i] == '_' as u8) {
        digit_run_end(s, i + 1, radix)
    } else {
        i
    }
}

/// Every separator from `from` up to `to` stands between two digits of the
/// base `radix`, the first of them not before `from`.
pub open spec fn separators_ok(s: Seq<u8>, from: int, to: int, radix: u8) -> bool {
    forall|k: int|
        from <= k < to && #[trigger] s[k] == '_' as u8 ==> from < k && is_digit_in(s[k - 1], radix)
            && k + 1 < s.len() && is_digit_in(s[k + 1], radix)
}

/// The base that the letter behind a leading `0` announces, 0 for any other
/// byte.
#[verifier::allow_in_spec]
pub fn radix_of(b: u8) -> u8
    returns
        (if b == 'x' as u8 || b == 'X' as u8 {
            16u8
        } else if b == 'o' as u8 || b == 'O' as u8 {
            8u8
        } else if b == 'b' as u8 || b == 'B' as u8 {
            2u8
        } else {
            0u8
        }),
{
    if b == 'x' as u8 || b == 'X' as u8 {
        16u8
    } else if b == 'o' as u8 || b == 'O' as u8 {
        8u8
    } else if b == 'b' as u8 || b == 'B' as u8 {
        2u8
    } else {
        0u8
    }
}

/// The base of the literal at `i` where it is `0`, a base letter and a digit
/// of that base; 0 where it is not.
pub open spec fn based_radix(s: Seq<u8>, i: int) -> u8 {
    if is_at(s, i, '0' as u8) && i + 2 < s.len() && is_digit_in(s[i + 2], radix_of(s[i + 1])) {
        radix_of(s[i + 1])
    } else {
        0
    }
}

/// Offset behind the big-integer suffix `n` at `e`, if there is one.
pub open spec fn suffix_end(s: Seq<u8>, e: int) -> int {
    if is_at(s, e, 'n' as u8) {
        e + 1
    } else {
        e
    }
}

/// Offset of the first digit of the exponent that starts at `e`: behind `e`
/// or `E` and an optional sign. An exponent needs a digit: where there is
/// none, the result is `e`.
pub open spec fn exponent_digits(s: Seq<u8>, e: int) -> int {
    if !(is_at(s, e, 'e' as u8) || is_at(s, e, 'E' as u8)) {
        e
    } else if e + 1 < s.len() && is_decimal_digit(s[e + 1]) {
        e + 1
    } else if (is_at(s, e + 1, '+' as u8) || is_at(s, e + 1, '-' as u8)) && e + 2 < s.len()
        && is_decimal_digit(s[e + 2]) {
        e + 2
    } else {
        e
    }
}

/// Whether a numeric literal starts at `i`: with a digit, or with a point
/// and a digit.
pub open spec fn number_starts(s: Seq<u8>, i: int) -> bool {
    0 <= i < s.len() && (is_decimal_digit(s[i]) || (s[i] == '.' as u8 && i + 1 < s.len()
        && is_decimal_digit(s[i + 1])))
}

/// Where the numeric literal that starts at `i` ends, and whether all its
/// separators stand between digits. A literal is `0x`, `0o` or `0b` with
/// digits of that base and an optional suffix `n`; or decimal digits with
/// the suffix `n`; or decimal digits, an optional fraction and an optional
/// exponent, where the digits before the point may be missing.
pub open spec fn number_end(s: Seq<u8>, i: int) -> (int, bool) {
    let radix = based_radix(s, i);
    if radix != 0 {
        let e = digit_run_end(s, i + 2, radix);
        (suffix_end(s, e), separators_ok(s, i + 2, e, radix))
    } else {
        let a = if is_at(s, i, '.' as u8) {
            i
        } else {
            digit_run_end(s, i, 10)
        };
        if i < a && is_at(s, a, 'n' as u8) {
            (a + 1, separators_ok(s, i, a, 10))
        } else {
            let b = if is_at(s, a, '.' as u8) {
                digit_run_end(s, a + 1, 10)
            } else {
                a
            };
            let d = exponent_digits(s, b);
            let c = if b < d {
                digit_run_end(s, d, 10)
            } else {
                b
            };
            (
                c,
                separators_ok(s, i, a, 10) && separators_ok(s, a + 1, b, 10) && separators_ok(
                    s,
                    d,
                    c,
                    10,
                ),
            )
        }
    }
}

/// The token of the numeric literal that starts at `i`. A literal that runs
/// into an identifier is one error token together with that identifier; one
/// with a misplaced separator is an error token by itself.
pub open spec fn number_token(s: Seq<u8>, i: int) -> Lexed {
    let (e, ok) = number_end(s, i);
    let j = id_start_end(s, e);
    if e < j {
        Lexed {
            kind: SyntaxKind::ERROR_TOKEN,
            end: ident_end(s, j),
            error: Some(ErrorKind::InvalidNumber),
        }
    } else if !ok {
        Lexed { kind: SyntaxKind::ERROR_TOKEN, end: e, error: Some(ErrorKind::InvalidNumber) }
    } else {
        Lexed { kind: SyntaxKind::NUMBER, end: e, error: None }
    }
}

/// A run of digits ends on a character boundary inside the text, behind
/// its first digit if it has one, and where neither a digit nor a
/// separator follows: the run is maximal.
pub proof fn lemma_digit_run_end(s: Seq<u8>, i: int, radix: u8)
    requires
        valid_utf8(s),
        boundary(s, i),
    ensures
        i <= digit_run_end(s, i, radix) <= s.len(),
        boundary(s, digit_run_end(s, i, radix)),
        i < s.len() && is_digit_in(s[i], radix) ==> i < digit_run_end(s, i, radix),
        digit_run_end(s, i, radix) == s.len() || !(is_digit_in(
            s[digit_run_end(s, i, radix)],
            radix,
        ) || s[digit_run_end(s, i, radix)] == '_' as u8),
    decreases s.len() - i,
{
    if i < s.len() && (is_digit_in(s[i], radix) || s[i] == '_' as u8) {
        lemma_ascii_step(s, i);
        lemma_digit_run_end(s, i + 1, radix);
    }
}

/// A numeric literal is not empty and ends on a character boundary inside
/// the text.
pub proof fn lemma_number_end(s: Seq<u8>, i: int)
    requires
        valid_utf8(s),
        number_starts(s, i),
    ensures
        i < number_end(s, i).0 <= s.len(),
        boundary(s, number_end(s, i).0),
{
    lemma_ascii_step(s, i);
    let radix = based_radix(s, i);
    if radix != 0 {
        lemma_ascii_step(s, i + 1);
        lemma_digit_run_end(s, i + 2, radix);
        let e = digit_run_end(s, i + 2, radix);
        if is_at(s, e, 'n' as u8) {
            lemma_ascii_step(s, e);
        }
    } else {
        let a = if is_at(s, i, '.' as u8) {
            i
        } else {
            digit_run_end(s, i, 10)
        };
        lemma_digit_run_end(s, i, 10);
        if i < a && is_at(s, a, 'n' as u8) {
            lemma_ascii_step(s, a);
        } else {
            let b = if is_at(s, a, '.' as u8) {
                digit_run_end(s, a + 1, 10)
            } else {
                a
            };
            if is_at(s, a, '.' as u8) {
                lemma_ascii_step(s, a);
                lemma_digit_run_end(s, a + 1, 10);
            }
            let d = exponent_digits(s, b);
            if b < d {
                lemma_ascii_step(s, b);
                if d == b + 2 {
                    lemma_ascii_step(s, b + 1);
                }
                lemma_digit_run_end(s, d, 10);
            }
        }
    }
}

/// The token of a numeric literal is not empty and ends on a character
/// boundary inside the text.
pub proof fn lemma_number_token(s: Seq<u8>, i: int)
    requires
        valid_utf8(s),
        number_starts(s, i),
    ensures
        i < number_token(s, i).end <= s.len(),
        boundary(s, number_token(s, i).end),
{
    lemma_number_end(s, i);
    let e = number_end(s, i).0;
    lemma_id_start_end(s, e);
    lemma_ident_end(s, id_start_end(s, e));
}

/// Skips the run of digits and separators that starts at `i`.
pub fn scan_digits(src: &[u8], i: usize, radix: u8) -> (r: (usize, bool))
    requires
        valid_utf8(src@),
        boundary(src@, i as int),
        i <= src.len(),
    ensures
        r.0 == digit_run_end(src@, i as int, radix),
        r.1 == separators_ok(src@, i as int, r.0 as int, radix),
        i <= r.0 <= src.len(),
        i < src.len() && is_digit_in(src@[i as int], radix) ==> i < r.0,
        boundary(src@, r.0 as int),
{
    let mut j = i;
    let mut ok = true;
    while j < src.len() && (is_digit_in(src[j], radix) || src[j] == '_' as u8)
        invariant
            valid_utf8(src@),
            boundary(src@, j as int),
            i <= j <= src.len(),
            digit_run_end(src@, j as int, radix) == digit_run_end(src@, i as int, radix),
            ok == separators_ok(src@, i as int, j as int, radix),
        decreases src.len() - j,
    {
        if src[j] == '_' as u8 {
            let between = i < j && is_digit_in(src[j - 1], radix) && j + 1 < src.len()
                && is_digit_in(src[j + 1], radix);
            ok = ok && between;
        }
        proof {
            lemma_ascii_step(src@, j as int);
        }
        j = j + 1;
    }
    (j, ok)
}

/// Finds the first digit of the exponent that starts at `e`.
pub fn scan_exponent_start(src: &[u8], e: usize) -> (d: usize)
    requires
        valid_utf8(src@),
        e <= src.len(),
    ensures
        d == exponent_digits(src@, e as int),
        e <= d <= src.len(),
        e < d ==> boundary(src@, d as int),
{
    if !(byte_is(src, e, 'e' as u8) || byte_is(src, e, 'E' as u8)) {
        return e;
    }
    let n = src.len();
    proof {
        lemma_ascii_step(src@, e as int);
    }
    if n - e > 1 && is_decimal_digit(src[e + 1]) {
        e + 1
    } else if n - e > 2 && (src[e + 1] == '+' as u8 || src[e + 1] == '-' as u8) && is_decimal_digit(
        src[e + 2],
    ) {
        proof {
            lemma_ascii_step(src@, e + 1);
        }
        e + 2
    } else {
        e
    }
}

/// Finds the end of the numeric literal that starts at `i`.
pub fn scan_number_end(src: &[u8], i: usize) -> (r: (usize, bool))
    requires
        valid_utf8(src@),
        boundary(src@, i as int),
        number_starts(src@, i as int),
    ensures
        (r.0 as int, r.1) == number_end(src@, i as int),
        i < r.0 <= src.len(),
        boundary(src@, r.0 as int),
{
    let n = src.len();
    proof {
        lemma_ascii_step(src@, i as int);
    }
    if src[i] == '0' as u8 && n - i > 2 {
        let radix = radix_of(src[i + 1]);
        if is_digit_in(src[i + 2], radix) {
            proof {
                lemma_ascii_step(src@, i + 1);
            }
            let (e, ok) = scan_digits(src, i + 2, radix);
            if byte_is(src, e, 'n' as u8) {
                proof {
                    lemma_ascii_step(src@, e as int);
                }
                return (e + 1, ok);
            }
            return (e, ok);
        }
    }
    let (a, int_ok) = if src[i] == '.' as u8 {
        (i, true)
    } else {
        scan_digits(src, i, 10)
    };
    if i < a && byte_is(src, a, 'n' as u8) {
        proof {
            lemma_ascii_step(src@, a as int);
        }
        return (a + 1, int_ok);
    }
    let (b, frac_ok) = if byte_is(src, a, '.' as u8) {
        proof {
            lemma_ascii_step(src@, a as int);
        }
        scan_digits(src, a + 1, 10)
    } else {
        (a, true)
    };
    let d = scan_exponent_start(src, b);
    if b < d {
        let (c, exp_ok) = scan_digits(src, d, 10);
        (c, int_ok && frac_ok && exp_ok)
    } else {
        (b, int_ok && frac_ok)
    }
}

/// Scans the numeric literal that starts at `i`.
pub fn scan_number(src: &[u8], i: usize) -> (r: Scanned)
    requires
        valid_utf8(src@),
        boundary(src@, i as int),
        number_starts(src@, i as int),
    ensures
        r@ == number_token(src@, i as int),
        i < r.end <= src.len(),
        boundary(src@, r.end as int),
{
    let (e, ok) = scan_number_end(src, i);
    let j = scan_id_start(src, e);
    if e < j {
        Scanned::bad(ErrorKind::InvalidNumber, scan_ident(src, j))
    } else if !ok {
        Scanned::bad(ErrorKind::InvalidNumber, e)
    } else {
        Scanned::good(SyntaxKind::NUMBER, e)
    }
}

} // verus!
