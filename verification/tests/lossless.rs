use rslint_lexer::{tokenize, Lexer, SyntaxKind};

// Tokenizes `src` and checks what holds of every text: one end-of-file token,
// last; no other token is empty; the slices that the tokens cover are the
// text again; there are no more tokens than bytes.
fn check_lossless(src: &str) {
    let mut tokens = Lexer::from_str(src, 0).collect();
    assert!(tokens.len() <= src.len() + 1, "too many tokens for {:?}", src);
    let eof = tokens.pop().expect("no end-of-file token");
    assert_eq!(eof.0.kind, SyntaxKind::EOF);
    assert_eq!(eof.0.len, 0);
    assert!(eof.1.is_none());

    let mut rebuilt = String::with_capacity(src.len());
    let mut idx = 0;
    for (token, diagnostic) in tokens {
        assert_ne!(token.kind, SyntaxKind::EOF, "second end of file in {:?}", src);
        assert!(token.len >= 1, "empty {:?} in {:?}", token.kind, src);
        let slice = src.get(idx..(idx + token.len));
        assert!(slice.is_some(), "{:?} of {:?} splits a character", token.kind, src);
        rebuilt.push_str(slice.unwrap());
        if let Some(d) = diagnostic {
            assert_eq!(d.start, idx);
            assert_eq!(d.end, idx + token.len);
        }
        match token.kind {
            SyntaxKind::ERROR_TOKEN => assert!(diagnostic.is_some()),
            SyntaxKind::COMMENT | SyntaxKind::TEMPLATE_CHUNK => {}
            _ => assert!(diagnostic.is_none()),
        }
        idx += token.len;
    }
    assert_eq!(idx, src.len());
    assert_eq!(src, rebuilt, "Failed to reconstruct input");
}

#[test]
fn lossless_empty_text() {
    let tokens = Lexer::from_str("", 0).collect();
    assert_eq!(tokens.len(), 1);
    assert_eq!(tokens[0].0.kind, SyntaxKind::EOF);
    assert_eq!(tokens[0].0.len, 0);
    assert!(tokens[0].1.is_none());
    check_lossless("");
}

#[test]
fn lossless_trivia_only() {
    check_lossless(" \t\n\r\n");
    check_lossless("// only a comment");
    check_lossless("/* a */ // b\n/* c");
    check_lossless("\u{feff}\u{2028}\u{2029}\u{3000}");
}

#[test]
fn lossless_plain_script() {
    check_lossless("function add(a, b) { return a + b; }\nadd(1, 2) / 3;\n");
    check_lossless("const re = /ab+c/gi, s = 'x\\'y', t = `a${b + `c${d}`}e`;");
    check_lossless("let x = 0x1F + 0b101 + 0o17 + 1_000n + .5e-3;");
    check_lossless("a?.b ?? c ??= d >>>= e ** f => g ... h");
}

#[test]
fn lossless_unicode_text() {
    check_lossless("var caf\u{e9} = '\u{1f980}'; // \u{4e2d}\u{6587}");
    check_lossless("\u{20ac}\u{1f600}\u{10ffff}\u{80}\u{7ff}\u{800}\u{ffff}\u{10000}");
    check_lossless("x\u{200c}y\u{200d}z \u{660}\u{300}");
    check_lossless("'\u{2028}' \"\u{2029}\" `\u{85}` /\u{a0}/");
    check_lossless("/\u{2028}/ //\u{2029}x");
}

#[test]
fn lossless_stray_backslashes() {
    check_lossless("\\");
    check_lossless("\\\\\\\\");
    check_lossless("\\u");
    check_lossless("\\u{");
    check_lossless("\\u{}");
    check_lossless("\\u{110000}");
    check_lossless("\\u12 \\u123 \\u1234 \\u12345");
    check_lossless("\\x \\q \\\u{e9}");
    check_lossless("a\\");
    check_lossless("1\\");
    check_lossless("'\\");
    check_lossless("\"\\u");
    check_lossless("`\\");
    check_lossless("`${\\");
    check_lossless("/\\");
    check_lossless("/[\\");
    check_lossless("/* \\");
    check_lossless("// \\");
    check_lossless("\\u0061\\u0062\\u{63}\\u0020\\u{}\\");
}

#[test]
fn lossless_unbalanced_text() {
    check_lossless("`${`${`${");
    check_lossless("}}}`}`}`");
    check_lossless("`${{{{{{");
    check_lossless("'''\"\"\"```");
    check_lossless("/*/ */ /**/ /***/ /* /* */ */");
    check_lossless("0x 0b 0o 0_ 0. 0e 0n 1_ 1__1 1e+ 1.e 1._ .1. ..1 ...1");
}

#[test]
fn lossless_every_prefix() {
    let src = "#!/bin/node\nlet s = `a${ {b: 'c\\u{64}'} }e\\``, r = /[/\\]]+/u; // \u{e9}\u{20ac}\u{1f600}\n0x1_fn / 2 /= \\u0061b /* \u{2028} */";
    for end in 0..=src.len() {
        if src.is_char_boundary(end) {
            check_lossless(&src[..end]);
        }
    }
}

#[test]
fn lossless_every_suffix() {
    let src = "let s = `a${ {b: 'c\\u{64}'} }e\\``, r = /[/\\]]+/u; // \u{e9}\u{20ac}\u{1f600}\n0x1_fn / 2 /= \\u0061b /* \u{2028} */";
    for start in 0..=src.len() {
        if src.is_char_boundary(start) {
            check_lossless(&src[start..]);
        }
    }
}

#[test]
fn lossless_random_texts() {
    let alphabet: Vec<char> = "ab_$019 \n\t\\u{}x'\"`/*[]-+.=<>!&|?:;,()#@eEnN\u{e9}\u{a0}\u{2028}\u{20ac}\u{1f600}\u{200d}\u{feff}"
        .chars()
        .collect();
    let mut seed: u64 = 0x2545_f491_4f6c_dd1d;
    for round in 0..3000 {
        let mut text = String::new();
        let len = round % 24;
        for _ in 0..len {
            seed = seed
                .wrapping_mul(6364136223846793005)
                .wrapping_add(1442695040888963407);
            let pick = (seed >> 33) as usize % alphabet.len();
            text.push(alphabet[pick]);
        }
        check_lossless(&text);
    }
}

#[test]
fn lossless_behind_a_shebang() {
    let src = "#!/usr/bin/env node\nlet x = 1;";
    let (start, tokens) = tokenize(src, 0);
    assert_eq!(start, 19);
    let total: usize = tokens.iter().map(|item| item.0.len).sum();
    assert_eq!(start + total, src.len());
    assert_eq!(tokens.last().unwrap().0.kind, SyntaxKind::EOF);
}

#[test]
fn finite_token_count() {
    let src = "a b c";
    let tokens = Lexer::from_str(src, 0).collect();
    assert_eq!(tokens.len(), 6);
    let src = ";;;;";
    let tokens = Lexer::from_str(src, 0).collect();
    assert_eq!(tokens.len(), src.len() + 1);
}

#[test]
fn next_ends_with_one_end_of_file() {
    let mut lexer = Lexer::from_str("a", 0);
    let first = lexer.next().unwrap();
    assert_eq!(first.0.kind, SyntaxKind::IDENT);
    assert_eq!(first.0.len, 1);
    assert_eq!(lexer.cur(), 1);
    let second = lexer.next().unwrap();
    assert_eq!(second.0.kind, SyntaxKind::EOF);
    assert_eq!(second.0.len, 0);
    assert!(lexer.next().is_none());
    assert!(lexer.next().is_none());
    assert_eq!(lexer.cur(), 1);
    assert!(lexer.collect().is_empty());
}

#[test]
fn lossless_arbitrary_unicode() {
    let mut seed: u64 = 0x9e37_79b9_7f4a_7c15;
    let mut next = move || {
        seed = seed
            .wrapping_mul(6364136223846793005)
            .wrapping_add(1442695040888963407);
        (seed >> 32) as u32
    };
    for round in 0..2000 {
        let mut text = String::new();
        for _ in 0..(round % 16) {
            let limit = match next() % 4 {
                0 => 0x80,
                1 => 0x800,
                2 => 0x10000,
                _ => 0x110000,
            };
            if let Some(ch) = char::from_u32(next() % limit) {
                text.push(ch);
            }
        }
        check_lossless(&text);
    }
}

#[test]
fn lossless_long_text() {
    let piece = "function f\u{e9}(a, b) { return `x${a / b}` + /re/g.test('s\\u{41}') ? 0x1F : 1_000n; } // c\n";
    let src = piece.repeat(5000);
    let tokens = Lexer::from_str(&src, 0).collect();
    let per_piece = Lexer::from_str(piece, 0).collect().len() - 1;
    assert_eq!(tokens.len(), 5000 * per_piece + 1);
    let total: usize = tokens.iter().map(|item| item.0.len).sum();
    assert_eq!(total, src.len());
    assert!(tokens.iter().all(|item| item.1.is_none()));
}
