use rslint_lexer::Lexer;
use rslint_lexer::SyntaxKind;

// Checks the kinds and lengths of the tokens of `src`, and that the slices
// which the tokens cover add up to `src` again.
fn assert_lex(src: &str, expected: &[(SyntaxKind, usize)]) {
    let lexer = Lexer::from_str(src, 0);
    let mut tokens = lexer.collect();
    let mut tok_idx = 0;

    let mut new_str = String::with_capacity(src.len());
    let eof = tokens.pop().unwrap();
    assert_eq!(eof.0.kind, SyntaxKind::EOF);
    assert_eq!(eof.0.len, 0);

    let mut idx = 0;
    for (kind, len) in expected {
        assert_eq!(
            tokens[idx].0.kind, *kind,
            "expected token kind {:?}, but found {:?}",
            kind, tokens[idx].0.kind,
        );

        assert_eq!(
            tokens[idx].0.len, *len,
            "expected token length of {}, but found {} for token {:?}",
            len, tokens[idx].0.len, tokens[idx].0.kind,
        );

        new_str.push_str(src.get(tok_idx..(tok_idx + tokens[idx].0.len)).unwrap());
        tok_idx += tokens[idx].0.len;

        idx += 1;
    }

    assert_eq!(src, new_str, "Failed to reconstruct input");
    assert_eq!(idx, tokens.len());
}

#[test]
fn strip_shebang() {
    let mut lex = Lexer::from_str("#! /bin/node \n\n", 0);
    lex.strip_shebang();
    assert_eq!(lex.cur(), 13);
}

#[test]
fn empty() {
    assert_lex("", &[]);
}

#[test]
fn identifier() {
    assert_lex(
        "Abcdefg",
        &[
            (SyntaxKind::IDENT, 7),
        ],
    );
}

#[test]
fn punctuators() {
    assert_lex(
        "!%%&()*+,-.:;<=>?[]^{}|~",
        &[
            (SyntaxKind::BANG, 1),
            (SyntaxKind::PERCENT, 1),
            (SyntaxKind::PERCENT, 1),
            (SyntaxKind::AMP, 1),
            (SyntaxKind::L_PAREN, 1),
            (SyntaxKind::R_PAREN, 1),
            (SyntaxKind::STAR, 1),
            (SyntaxKind::PLUS, 1),
            (SyntaxKind::COMMA, 1),
            (SyntaxKind::MINUS, 1),
            (SyntaxKind::DOT, 1),
            (SyntaxKind::COLON, 1),
            (SyntaxKind::SEMICOLON, 1),
            (SyntaxKind::LTEQ, 2),
            (SyntaxKind::R_ANGLE, 1),
            (SyntaxKind::QUESTION, 1),
            (SyntaxKind::L_BRACK, 1),
            (SyntaxKind::R_BRACK, 1),
            (SyntaxKind::CARET, 1),
            (SyntaxKind::L_CURLY, 1),
            (SyntaxKind::R_CURLY, 1),
            (SyntaxKind::PIPE, 1),
            (SyntaxKind::TILDE, 1),
        ],
    );
}

#[test]
fn consecutive_punctuators() {
    assert_lex(
        "&&&&^^^||",
        &[
            (SyntaxKind::AMP2, 2),
            (SyntaxKind::AMP2, 2),
            (SyntaxKind::CARET, 1),
            (SyntaxKind::CARET, 1),
            (SyntaxKind::CARET, 1),
            (SyntaxKind::PIPE2, 2),
        ],
    );
}

#[test]
fn unicode_whitespace() {
    assert_lex(
        " \u{00a0}\u{1680}\u{2000}\u{2001}\u{2002}\u{2003}\u{2004}\u{2005}\u{2006}\u{2007}\u{2008}\u{2009}\u{200A}\u{202F}\u{205F}\u{3000}",
        &[
            (SyntaxKind::WHITESPACE, 48),
        ],
    );
}

#[test]
fn unicode_whitespace_ident_part() {
    assert_lex(
        "Abcd\u{2006}",
        &[
            (SyntaxKind::IDENT, 4),
            (SyntaxKind::WHITESPACE, 3),
        ],
    );
}

#[test]
fn all_whitespace() {
    assert_lex(
        "
        ",
        &[
            (SyntaxKind::WHITESPACE, 9),
        ],
    );
}

#[test]
fn empty_string() {
    assert_lex(
        r#""""#,
        &[
            (SyntaxKind::STRING, 2),
        ],
    );

    assert_lex(
        "''",
        &[
            (SyntaxKind::STRING, 2),
        ],
    );
}

#[test]
fn template_literals() {
    assert_lex(
        "`abcdefg` `abc",
        &[
            (SyntaxKind::BACKTICK, 1),
            (SyntaxKind::TEMPLATE_CHUNK, 7),
            (SyntaxKind::BACKTICK, 1),
            (SyntaxKind::WHITESPACE, 1),
            (SyntaxKind::BACKTICK, 1),
            (SyntaxKind::TEMPLATE_CHUNK, 3),
        ],
    );

    assert_lex(
        "`${a} a`",
        &[
            (SyntaxKind::BACKTICK, 1),
            (SyntaxKind::DOLLARCURLY, 2),
            (SyntaxKind::IDENT, 1),
            (SyntaxKind::R_CURLY, 1),
            (SyntaxKind::TEMPLATE_CHUNK, 2),
            (SyntaxKind::BACKTICK, 1),
        ],
    );

    assert_lex(
        "`${a} b ${b}`",
        &[
            (SyntaxKind::BACKTICK, 1),
            (SyntaxKind::DOLLARCURLY, 2),
            (SyntaxKind::IDENT, 1),
            (SyntaxKind::R_CURLY, 1),
            (SyntaxKind::TEMPLATE_CHUNK, 3),
            (SyntaxKind::DOLLARCURLY, 2),
            (SyntaxKind::IDENT, 1),
            (SyntaxKind::R_CURLY, 1),
            (SyntaxKind::BACKTICK, 1),
        ],
    );
}

#[test]
fn simple_string() {
    assert_lex(
        r#"'abcdefghijklmnopqrstuvwxyz123456789\'10🦀'"#,
        &[
            (SyntaxKind::STRING, 45),
        ],
    );

    assert_lex(
        r#""abcdefghijklmnopqrstuvwxyz123456789\"10🦀""#,
        &[
            (SyntaxKind::STRING, 45),
        ],
    );
}

#[test]
fn string_unicode_escape_invalid() {
    assert_lex(
        r#""abcd\u21""#,
        &[
            (SyntaxKind::ERROR_TOKEN, 10),
        ],
    );

    assert_lex(
        r#"'abcd\u21'"#,
        &[
            (SyntaxKind::ERROR_TOKEN, 10),
        ],
    );
}

#[test]
fn string_unicode_escape_valid() {
    assert_lex(
        r#""abcd\u2000a""#,
        &[
            (SyntaxKind::STRING, 13),
        ],
    );

    assert_lex(
        r#"'abcd\u2000a'"#,
        &[
            (SyntaxKind::STRING, 13),
        ],
    );
}

#[test]
fn string_unicode_escape_valid_resolving_to_endquote() {
    assert_lex(
        r#""abcd\u0022a""#,
        &[
            (SyntaxKind::STRING, 13),
        ],
    );

    assert_lex(
        r#"'abcd\u0027a'"#,
        &[
            (SyntaxKind::STRING, 13),
        ],
    );
}

#[test]
fn string_hex_escape_invalid() {
    assert_lex(
        r#""abcd \xZ0 \xGH""#,
        &[
            (SyntaxKind::ERROR_TOKEN, 16),
        ],
    );

    assert_lex(
        r#"'abcd \xZ0 \xGH'"#,
        &[
            (SyntaxKind::ERROR_TOKEN, 16),
        ],
    );
}

#[test]
fn string_hex_escape_valid() {
    assert_lex(
        r#""abcd \x00 \xAB""#,
        &[
            (SyntaxKind::STRING, 16),
        ],
    );

    assert_lex(
        r#"'abcd \x00 \xAB'"#,
        &[
            (SyntaxKind::STRING, 16),
        ],
    );
}

#[test]
fn unterminated_string() {
    assert_lex(
        r#""abcd"#,
        &[
            (SyntaxKind::ERROR_TOKEN, 5),
        ],
    );

    assert_lex(
        r#"'abcd"#,
        &[
            (SyntaxKind::ERROR_TOKEN, 5),
        ],
    );
}

#[test]
fn string_all_escapes() {
    assert_lex(
        r#""\x\u2004\u20\ux\xNN""#,
        &[
            (SyntaxKind::ERROR_TOKEN, 21),
        ],
    );

    assert_lex(
        r#"'\x\u2004\u20\ux\xNN'"#,
        &[
            (SyntaxKind::ERROR_TOKEN, 21),
        ],
    );
}

#[test]
fn complex_string_1() {
    assert_lex(
        r#" _this += "str'n\u200bg";"#,
        &[
            (SyntaxKind::WHITESPACE, 1),
            (SyntaxKind::IDENT, 5),
            (SyntaxKind::WHITESPACE, 1),
            (SyntaxKind::PLUSEQ, 2),
            (SyntaxKind::WHITESPACE, 1),
            (SyntaxKind::STRING, 14),
            (SyntaxKind::SEMICOLON, 1),
        ],
    );

    assert_lex(
        r#" _this += 'str"n\u200bg';"#,
        &[
            (SyntaxKind::WHITESPACE, 1),
            (SyntaxKind::IDENT, 5),
            (SyntaxKind::WHITESPACE, 1),
            (SyntaxKind::PLUSEQ, 2),
            (SyntaxKind::WHITESPACE, 1),
            (SyntaxKind::STRING, 14),
            (SyntaxKind::SEMICOLON, 1),
        ],
    );
}

#[test]
fn unterminated_string_length() {
    assert_lex(
        "'abc",
        &[
            (SyntaxKind::ERROR_TOKEN, 4),
        ],
    );
}

#[test]
fn unterminated_string_with_escape_len() {
    assert_lex(
        "'abc\\",
        &[
            (SyntaxKind::ERROR_TOKEN, 5),
        ],
    );

    assert_lex(
        r#"'abc\x"#,
        &[
            (SyntaxKind::ERROR_TOKEN, 6),
        ],
    );

    assert_lex(
        r#"'abc\x4"#,
        &[
            (SyntaxKind::ERROR_TOKEN, 7),
        ],
    );

    assert_lex(
        r#"'abc\x45"#,
        &[
            (SyntaxKind::ERROR_TOKEN, 8),
        ],
    );

    assert_lex(
        r#"'abc\u"#,
        &[
            (SyntaxKind::ERROR_TOKEN, 6),
        ],
    );

    assert_lex(
        r#"'abc\u20"#,
        &[
            (SyntaxKind::ERROR_TOKEN, 8),
        ],
    );
}

#[test]
fn dollarsign_underscore_idents() {
    assert_lex(
        "$a",
        &[
            (SyntaxKind::IDENT, 2),
        ],
    );
}

#[test]
fn labels_a() {
    assert_lex(
        "await",
        &[
            (SyntaxKind::AWAIT_KW, 5),
        ],
    );

    assert_lex(
        "awaited",
        &[
            (SyntaxKind::IDENT, 7),
        ],
    );
}

#[test]
fn labels_b() {
    assert_lex(
        "break",
        &[
            (SyntaxKind::BREAK_KW, 5),
        ],
    );

    assert_lex(
        "breaking speed records",
        &[
            (SyntaxKind::IDENT, 8),
            (SyntaxKind::WHITESPACE, 1),
            (SyntaxKind::IDENT, 5),
            (SyntaxKind::WHITESPACE, 1),
            (SyntaxKind::IDENT, 7),
        ],
    );
}

#[test]
fn labels_c() {
    assert_lex(
        "continue, const, class, catch, case",
        &[
            (SyntaxKind::CONTINUE_KW, 8),
            (SyntaxKind::COMMA, 1),
            (SyntaxKind::WHITESPACE, 1),
            (SyntaxKind::CONST_KW, 5),
            (SyntaxKind::COMMA, 1),
            (SyntaxKind::WHITESPACE, 1),
            (SyntaxKind::CLASS_KW, 5),
            (SyntaxKind::COMMA, 1),
            (SyntaxKind::WHITESPACE, 1),
            (SyntaxKind::CATCH_KW, 5),
            (SyntaxKind::COMMA, 1),
            (SyntaxKind::WHITESPACE, 1),
            (SyntaxKind::CASE_KW, 4),
        ],
    );

    assert_lex(
        "classy crabs",
        &[
            (SyntaxKind::IDENT, 6),
            (SyntaxKind::WHITESPACE, 1),
            (SyntaxKind::IDENT, 5),
        ],
    );
}

#[test]
fn labels_d() {
    assert_lex(
        "debugger default delete do",
        &[
            (SyntaxKind::DEBUGGER_KW, 8),
            (SyntaxKind::WHITESPACE, 1),
            (SyntaxKind::DEFAULT_KW, 7),
            (SyntaxKind::WHITESPACE, 1),
            (SyntaxKind::DELETE_KW, 6),
            (SyntaxKind::WHITESPACE, 1),
            (SyntaxKind::DO_KW, 2),
        ],
    );

    assert_lex(
        "derive doot d",
        &[
            (SyntaxKind::IDENT, 6),
            (SyntaxKind::WHITESPACE, 1),
            (SyntaxKind::IDENT, 4),
            (SyntaxKind::WHITESPACE, 1),
            (SyntaxKind::IDENT, 1),
        ],
    );
}

#[test]
fn labels_e() {
    assert_lex(
        "else enum export extends",
        &[
            (SyntaxKind::ELSE_KW, 4),
            (SyntaxKind::WHITESPACE, 1),
            (SyntaxKind::ENUM_KW, 4),
            (SyntaxKind::WHITESPACE, 1),
            (SyntaxKind::EXPORT_KW, 6),
            (SyntaxKind::WHITESPACE, 1),
            (SyntaxKind::EXTENDS_KW, 7),
        ],
    );

    assert_lex(
        "e exports elsey",
        &[
            (SyntaxKind::IDENT, 1),
            (SyntaxKind::WHITESPACE, 1),
            (SyntaxKind::IDENT, 7),
            (SyntaxKind::WHITESPACE, 1),
            (SyntaxKind::IDENT, 5),
        ],
    );
}

#[test]
fn labels_f() {
    assert_lex(
        "finally for function",
        &[
            (SyntaxKind::FINALLY_KW, 7),
            (SyntaxKind::WHITESPACE, 1),
            (SyntaxKind::FOR_KW, 3),
            (SyntaxKind::WHITESPACE, 1),
            (SyntaxKind::FUNCTION_KW, 8),
        ],
    );

    assert_lex(
        "finally, foreign food!",
        &[
            (SyntaxKind::FINALLY_KW, 7),
            (SyntaxKind::COMMA, 1),
            (SyntaxKind::WHITESPACE, 1),
            (SyntaxKind::IDENT, 7),
            (SyntaxKind::WHITESPACE, 1),
            (SyntaxKind::IDENT, 4),
            (SyntaxKind::BANG, 1),
        ],
    );
}

#[test]
fn labels_i() {
    assert_lex(
        "i in instanceof if import",
        &[
            (SyntaxKind::IDENT, 1),
            (SyntaxKind::WHITESPACE, 1),
            (SyntaxKind::IN_KW, 2),
            (SyntaxKind::WHITESPACE, 1),
            (SyntaxKind::INSTANCEOF_KW, 10),
            (SyntaxKind::WHITESPACE, 1),
            (SyntaxKind::IF_KW, 2),
            (SyntaxKind::WHITESPACE, 1),
            (SyntaxKind::IMPORT_KW, 6),
        ],
    );

    assert_lex(
        "icecream is interesting, innit?",
        &[
            (SyntaxKind::IDENT, 8),
            (SyntaxKind::WHITESPACE, 1),
            (SyntaxKind::IDENT, 2),
            (SyntaxKind::WHITESPACE, 1),
            (SyntaxKind::IDENT, 11),
            (SyntaxKind::COMMA, 1),
            (SyntaxKind::WHITESPACE, 1),
            (SyntaxKind::IDENT, 5),
            (SyntaxKind::QUESTION, 1),
        ],
    );
}

#[test]
fn labels_n() {
    assert_lex(
        "new",
        &[
            (SyntaxKind::NEW_KW, 3),
        ],
    );

    assert_lex(
        "newly n",
        &[
            (SyntaxKind::IDENT, 5),
            (SyntaxKind::WHITESPACE, 1),
            (SyntaxKind::IDENT, 1),
        ],
    );
}

#[test]
fn labels_r() {
    assert_lex(
        "return",
        &[
            (SyntaxKind::RETURN_KW, 6),
        ],
    );

    assert_lex(
        "returning",
        &[
            (SyntaxKind::IDENT, 9),
        ],
    );
}

#[test]
fn labels_s() {
    assert_lex(
        "switch super",
        &[
            (SyntaxKind::SWITCH_KW, 6),
            (SyntaxKind::WHITESPACE, 1),
            (SyntaxKind::SUPER_KW, 5),
        ],
    );

    assert_lex(
        "superb switching",
        &[
            (SyntaxKind::IDENT, 6),
            (SyntaxKind::WHITESPACE, 1),
            (SyntaxKind::IDENT, 9),
        ],
    );
}

#[test]
fn labels_t() {
    assert_lex(
        "this try throw typeof t",
        &[
            (SyntaxKind::THIS_KW, 4),
            (SyntaxKind::WHITESPACE, 1),
            (SyntaxKind::TRY_KW, 3),
            (SyntaxKind::WHITESPACE, 1),
            (SyntaxKind::THROW_KW, 5),
            (SyntaxKind::WHITESPACE, 1),
            (SyntaxKind::TYPEOF_KW, 6),
            (SyntaxKind::WHITESPACE, 1),
            (SyntaxKind::IDENT, 1),
        ],
    );

    assert_lex(
        "thistle throwing tea",
        &[
            (SyntaxKind::IDENT, 7),
            (SyntaxKind::WHITESPACE, 1),
            (SyntaxKind::IDENT, 8),
            (SyntaxKind::WHITESPACE, 1),
            (SyntaxKind::IDENT, 3),
        ],
    );
}

#[test]
fn labels_v() {
    assert_lex(
        "var void v",
        &[
            (SyntaxKind::VAR_KW, 3),
            (SyntaxKind::WHITESPACE, 1),
            (SyntaxKind::VOID_KW, 4),
            (SyntaxKind::WHITESPACE, 1),
            (SyntaxKind::IDENT, 1),
        ],
    );

    assert_lex(
        "variable voiding is bad",
        &[
            (SyntaxKind::IDENT, 8),
            (SyntaxKind::WHITESPACE, 1),
            (SyntaxKind::IDENT, 7),
            (SyntaxKind::WHITESPACE, 1),
            (SyntaxKind::IDENT, 2),
            (SyntaxKind::WHITESPACE, 1),
            (SyntaxKind::IDENT, 3),
        ],
    );
}

#[test]
fn labels_w() {
    assert_lex(
        "with while w",
        &[
            (SyntaxKind::WITH_KW, 4),
            (SyntaxKind::WHITESPACE, 1),
            (SyntaxKind::WHILE_KW, 5),
            (SyntaxKind::WHITESPACE, 1),
            (SyntaxKind::IDENT, 1),
        ],
    );

    assert_lex(
        "whiley withow",
        &[
            (SyntaxKind::IDENT, 6),
            (SyntaxKind::WHITESPACE, 1),
            (SyntaxKind::IDENT, 6),
        ],
    );
}

#[test]
fn labels_y() {
    assert_lex(
        "yield",
        &[
            (SyntaxKind::YIELD_KW, 5),
        ],
    );

    assert_lex(
        "yielding",
        &[
            (SyntaxKind::IDENT, 8),
        ],
    );
}

#[test]
fn number_basic() {
    assert_lex(
        "1",
        &[
            (SyntaxKind::NUMBER, 1),
        ],
    );

    assert_lex(
        "123456 ",
        &[
            (SyntaxKind::NUMBER, 6),
            (SyntaxKind::WHITESPACE, 1),
        ],
    );

    assert_lex(
        "90",
        &[
            (SyntaxKind::NUMBER, 2),
        ],
    );

    assert_lex(
        ".13",
        &[
            (SyntaxKind::NUMBER, 3),
        ],
    );
}

#[test]
fn number_basic_err() {
    assert_lex(
        "2_?",
        &[
            (SyntaxKind::ERROR_TOKEN, 2),
            (SyntaxKind::QUESTION, 1),
        ],
    );

    assert_lex(
        r#"25\u0046abcdef"#,
        &[
            (SyntaxKind::ERROR_TOKEN, 14),
        ],
    );

    assert_lex(
        r#"25\uFEFFb"#,
        &[
            (SyntaxKind::NUMBER, 2),
            (SyntaxKind::ERROR_TOKEN, 6),
            (SyntaxKind::IDENT, 1),
        ],
    );

    assert_lex(
        r#".32\u0046abde"#,
        &[
            (SyntaxKind::ERROR_TOKEN, 13),
        ],
    );
}

#[test]
fn number_complex() {
    assert_lex(
        "3e-5 123e+56",
        &[
            (SyntaxKind::NUMBER, 4),
            (SyntaxKind::WHITESPACE, 1),
            (SyntaxKind::NUMBER, 7),
        ],
    );

    assert_lex(
        "3.14159e+1",
        &[
            (SyntaxKind::NUMBER, 10),
        ],
    );

    assert_lex(
        ".0e34",
        &[
            (SyntaxKind::NUMBER, 5),
        ],
    );
}

#[test]
fn dot_number_disambiguation() {
    assert_lex(
        ".e+5",
        &[
            (SyntaxKind::DOT, 1),
            (SyntaxKind::IDENT, 1),
            (SyntaxKind::PLUS, 1),
            (SyntaxKind::NUMBER, 1),
        ],
    );

    assert_lex(
        ".0e+5",
        &[
            (SyntaxKind::NUMBER, 5),
        ],
    );
}

#[test]
fn binary_literals() {
    assert_lex(
        "0b10101010, 0B10101010, 0b10101010n",
        &[
            (SyntaxKind::NUMBER, 10),
            (SyntaxKind::COMMA, 1),
            (SyntaxKind::WHITESPACE, 1),
            (SyntaxKind::NUMBER, 10),
            (SyntaxKind::COMMA, 1),
            (SyntaxKind::WHITESPACE, 1),
            (SyntaxKind::NUMBER, 11),
        ],
    );
}

#[test]
fn octal_literals() {
    assert_lex(
        "0o01742242, 0B10101010, 0b10101010n",
        &[
            (SyntaxKind::NUMBER, 10),
            (SyntaxKind::COMMA, 1),
            (SyntaxKind::WHITESPACE, 1),
            (SyntaxKind::NUMBER, 10),
            (SyntaxKind::COMMA, 1),
            (SyntaxKind::WHITESPACE, 1),
            (SyntaxKind::NUMBER, 11),
        ],
    );
}

#[test]
fn bigint_literals() {
    assert_lex(
        "0n 1743642n 1n",
        &[
            (SyntaxKind::NUMBER, 2),
            (SyntaxKind::WHITESPACE, 1),
            (SyntaxKind::NUMBER, 8),
            (SyntaxKind::WHITESPACE, 1),
            (SyntaxKind::NUMBER, 2),
        ],
    );
}

#[test]
fn single_line_comments() {
    assert_lex(
        "//abc
    ",
        &[
            (SyntaxKind::COMMENT, 5),
            (SyntaxKind::WHITESPACE, 5),
        ],
    );

    assert_lex(
        "//a",
        &[
            (SyntaxKind::COMMENT, 3),
        ],
    );
}

#[test]
fn block_comment() {
    assert_lex(
        "/*
        */",
        &[
            (SyntaxKind::COMMENT, 13),
        ],
    );

    assert_lex(
        "/* */",
        &[
            (SyntaxKind::COMMENT, 5),
        ],
    );

    assert_lex(
        "/* *",
        &[
            (SyntaxKind::COMMENT, 4),
        ],
    );
}

#[test]
fn regex() {
    assert_lex(
        "var a = /aa/gim",
        &[
            (SyntaxKind::VAR_KW, 3),
            (SyntaxKind::WHITESPACE, 1),
            (SyntaxKind::IDENT, 1),
            (SyntaxKind::WHITESPACE, 1),
            (SyntaxKind::EQ, 1),
            (SyntaxKind::WHITESPACE, 1),
            (SyntaxKind::REGEX, 7),
        ],
    );
}

#[test]
fn division() {
    assert_lex(
        "var a = 5 / 6",
        &[
            (SyntaxKind::VAR_KW, 3),
            (SyntaxKind::WHITESPACE, 1),
            (SyntaxKind::IDENT, 1),
            (SyntaxKind::WHITESPACE, 1),
            (SyntaxKind::EQ, 1),
            (SyntaxKind::WHITESPACE, 1),
            (SyntaxKind::NUMBER, 1),
            (SyntaxKind::WHITESPACE, 1),
            (SyntaxKind::SLASH, 1),
            (SyntaxKind::WHITESPACE, 1),
            (SyntaxKind::NUMBER, 1),
        ],
    );
}

#[test]
fn template_escape() {
    assert_lex(
        r"`foo \` bar`",
        &[
            (SyntaxKind::BACKTICK, 1),
            (SyntaxKind::TEMPLATE_CHUNK, 10),
            (SyntaxKind::BACKTICK, 1),
        ],
    );
}
