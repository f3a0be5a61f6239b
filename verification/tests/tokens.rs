use rslint_lexer::{tokenize, Diagnostic, ErrorKind, Lexer, SyntaxKind};

fn lex(src: &str) -> Vec<(SyntaxKind, usize)> {
    let mut tokens = Lexer::from_str(src, 0).collect();
    let eof = tokens.pop().unwrap();
    assert_eq!(eof.0.kind, SyntaxKind::EOF);
    tokens.iter().map(|item| (item.0.kind, item.0.len)).collect()
}

fn errors(src: &str, file_id: usize) -> Vec<Diagnostic> {
    Lexer::from_str(src, file_id)
        .collect()
        .iter()
        .filter_map(|item| item.1)
        .collect()
}

#[test]
fn every_keyword() {
    let keywords = [
        ("await", SyntaxKind::AWAIT_KW),
        ("break", SyntaxKind::BREAK_KW),
        ("case", SyntaxKind::CASE_KW),
        ("catch", SyntaxKind::CATCH_KW),
        ("class", SyntaxKind::CLASS_KW),
        ("const", SyntaxKind::CONST_KW),
        ("continue", SyntaxKind::CONTINUE_KW),
        ("debugger", SyntaxKind::DEBUGGER_KW),
        ("default", SyntaxKind::DEFAULT_KW),
        ("delete", SyntaxKind::DELETE_KW),
        ("do", SyntaxKind::DO_KW),
        ("else", SyntaxKind::ELSE_KW),
        ("enum", SyntaxKind::ENUM_KW),
        ("export", SyntaxKind::EXPORT_KW),
        ("extends", SyntaxKind::EXTENDS_KW),
        ("false", SyntaxKind::FALSE_KW),
        ("finally", SyntaxKind::FINALLY_KW),
        ("for", SyntaxKind::FOR_KW),
        ("function", SyntaxKind::FUNCTION_KW),
        ("if", SyntaxKind::IF_KW),
        ("in", SyntaxKind::IN_KW),
        ("instanceof", SyntaxKind::INSTANCEOF_KW),
        ("interface", SyntaxKind::INTERFACE_KW),
        ("import", SyntaxKind::IMPORT_KW),
        ("implements", SyntaxKind::IMPLEMENTS_KW),
        ("new", SyntaxKind::NEW_KW),
        ("null", SyntaxKind::NULL_KW),
        ("package", SyntaxKind::PACKAGE_KW),
        ("private", SyntaxKind::PRIVATE_KW),
        ("protected", SyntaxKind::PROTECTED_KW),
        ("public", SyntaxKind::PUBLIC_KW),
        ("return", SyntaxKind::RETURN_KW),
        ("super", SyntaxKind::SUPER_KW),
        ("switch", SyntaxKind::SWITCH_KW),
        ("this", SyntaxKind::THIS_KW),
        ("throw", SyntaxKind::THROW_KW),
        ("try", SyntaxKind::TRY_KW),
        ("true", SyntaxKind::TRUE_KW),
        ("typeof", SyntaxKind::TYPEOF_KW),
        ("var", SyntaxKind::VAR_KW),
        ("void", SyntaxKind::VOID_KW),
        ("while", SyntaxKind::WHILE_KW),
        ("with", SyntaxKind::WITH_KW),
        ("yield", SyntaxKind::YIELD_KW),
    ];
    for (word, kind) in keywords {
        assert_eq!(lex(word), vec![(kind, word.len())], "{}", word);
        let longer = format!("{}x", word);
        assert_eq!(lex(&longer), vec![(SyntaxKind::IDENT, word.len() + 1)], "{}", longer);
        let shorter = &word[..word.len() - 1];
        assert_ne!(lex(shorter), vec![(kind, word.len() - 1)], "{}", shorter);
        let upper = word.to_uppercase();
        assert_eq!(lex(&upper), vec![(SyntaxKind::IDENT, word.len())], "{}", upper);
    }
}

#[test]
fn keyword_with_escape_is_identifier() {
    assert_eq!(lex("\\u0061wait"), vec![(SyntaxKind::IDENT, 10)]);
    assert_eq!(lex("aw\\u{61}it"), vec![(SyntaxKind::IDENT, 10)]);
}

#[test]
fn every_punctuator() {
    let punctuators = [
        (";", SyntaxKind::SEMICOLON),
        (",", SyntaxKind::COMMA),
        ("(", SyntaxKind::L_PAREN),
        (")", SyntaxKind::R_PAREN),
        ("{", SyntaxKind::L_CURLY),
        ("}", SyntaxKind::R_CURLY),
        ("[", SyntaxKind::L_BRACK),
        ("]", SyntaxKind::R_BRACK),
        ("<", SyntaxKind::L_ANGLE),
        (">", SyntaxKind::R_ANGLE),
        ("~", SyntaxKind::TILDE),
        ("?", SyntaxKind::QUESTION),
        ("??", SyntaxKind::QUESTION2),
        ("?.", SyntaxKind::QUESTIONDOT),
        ("&", SyntaxKind::AMP),
        ("|", SyntaxKind::PIPE),
        ("+", SyntaxKind::PLUS),
        ("++", SyntaxKind::PLUS2),
        ("*", SyntaxKind::STAR),
        ("**", SyntaxKind::STAR2),
        ("^", SyntaxKind::CARET),
        ("%", SyntaxKind::PERCENT),
        (".", SyntaxKind::DOT),
        ("...", SyntaxKind::DOT2),
        (":", SyntaxKind::COLON),
        ("=", SyntaxKind::EQ),
        ("==", SyntaxKind::EQ2),
        ("===", SyntaxKind::EQ3),
        ("=>", SyntaxKind::FAT_ARROW),
        ("!", SyntaxKind::BANG),
        ("!=", SyntaxKind::NEQ),
        ("!==", SyntaxKind::NEQ2),
        ("-", SyntaxKind::MINUS),
        ("--", SyntaxKind::MINUS2),
        ("<=", SyntaxKind::LTEQ),
        (">=", SyntaxKind::GTEQ),
        ("+=", SyntaxKind::PLUSEQ),
        ("-=", SyntaxKind::MINUSEQ),
        ("|=", SyntaxKind::PIPEEQ),
        ("&=", SyntaxKind::AMPEQ),
        ("^=", SyntaxKind::CARETEQ),
        ("*=", SyntaxKind::STAREQ),
        ("%=", SyntaxKind::PERCENTEQ),
        ("&&", SyntaxKind::AMP2),
        ("||", SyntaxKind::PIPE2),
        ("<<", SyntaxKind::SHL),
        (">>", SyntaxKind::SHR),
        (">>>", SyntaxKind::USHR),
        ("<<=", SyntaxKind::SHLEQ),
        (">>=", SyntaxKind::SHREQ),
        (">>>=", SyntaxKind::USHREQ),
        ("&&=", SyntaxKind::AMP2EQ),
        ("||=", SyntaxKind::PIPE2EQ),
        ("**=", SyntaxKind::STAR2EQ),
        ("??=", SyntaxKind::QUESTION2EQ),
        ("@", SyntaxKind::AT),
        ("#", SyntaxKind::HASH),
    ];
    for (text, kind) in punctuators {
        assert_eq!(lex(text), vec![(kind, text.len())], "{}", text);
        let spaced = format!("{} a", text);
        assert_eq!(
            lex(&spaced),
            vec![(kind, text.len()), (SyntaxKind::WHITESPACE, 1), (SyntaxKind::IDENT, 1)],
            "{}",
            spaced
        );
    }
}

#[test]
fn punctuators_take_the_longest_match() {
    assert_eq!(
        lex(">>>>="),
        vec![(SyntaxKind::USHR, 3), (SyntaxKind::GTEQ, 2)]
    );
    assert_eq!(
        lex("===="),
        vec![(SyntaxKind::EQ3, 3), (SyntaxKind::EQ, 1)]
    );
    assert_eq!(
        lex("+++"),
        vec![(SyntaxKind::PLUS2, 2), (SyntaxKind::PLUS, 1)]
    );
    assert_eq!(lex(".."), vec![(SyntaxKind::DOT, 1), (SyntaxKind::DOT, 1)]);
    assert_eq!(
        lex("...."),
        vec![(SyntaxKind::DOT2, 3), (SyntaxKind::DOT, 1)]
    );
    assert_eq!(
        lex("^^"),
        vec![(SyntaxKind::CARET, 1), (SyntaxKind::CARET, 1)]
    );
    assert_eq!(
        lex("<<<"),
        vec![(SyntaxKind::SHL, 2), (SyntaxKind::L_ANGLE, 1)]
    );
    assert_eq!(
        lex("!==="),
        vec![(SyntaxKind::NEQ2, 3), (SyntaxKind::EQ, 1)]
    );
}

#[test]
fn optional_chaining_before_a_digit() {
    assert_eq!(
        lex("a?.b"),
        vec![
            (SyntaxKind::IDENT, 1),
            (SyntaxKind::QUESTIONDOT, 2),
            (SyntaxKind::IDENT, 1)
        ]
    );
    assert_eq!(
        lex("a?.5:1"),
        vec![
            (SyntaxKind::IDENT, 1),
            (SyntaxKind::QUESTION, 1),
            (SyntaxKind::NUMBER, 2),
            (SyntaxKind::COLON, 1),
            (SyntaxKind::NUMBER, 1)
        ]
    );
}

#[test]
fn division_and_regex() {
    assert_eq!(
        lex("a/b"),
        vec![
            (SyntaxKind::IDENT, 1),
            (SyntaxKind::SLASH, 1),
            (SyntaxKind::IDENT, 1)
        ]
    );
    assert_eq!(
        lex("a/=b"),
        vec![
            (SyntaxKind::IDENT, 1),
            (SyntaxKind::SLASHEQ, 2),
            (SyntaxKind::IDENT, 1)
        ]
    );
    assert_eq!(
        lex("(a)/2/1"),
        vec![
            (SyntaxKind::L_PAREN, 1),
            (SyntaxKind::IDENT, 1),
            (SyntaxKind::R_PAREN, 1),
            (SyntaxKind::SLASH, 1),
            (SyntaxKind::NUMBER, 1),
            (SyntaxKind::SLASH, 1),
            (SyntaxKind::NUMBER, 1)
        ]
    );
    assert_eq!(
        lex("a[0]/2"),
        vec![
            (SyntaxKind::IDENT, 1),
            (SyntaxKind::L_BRACK, 1),
            (SyntaxKind::NUMBER, 1),
            (SyntaxKind::R_BRACK, 1),
            (SyntaxKind::SLASH, 1),
            (SyntaxKind::NUMBER, 1)
        ]
    );
    assert_eq!(
        lex("this/2"),
        vec![
            (SyntaxKind::THIS_KW, 4),
            (SyntaxKind::SLASH, 1),
            (SyntaxKind::NUMBER, 1)
        ]
    );
    assert_eq!(
        lex("'s' /* c */ / 2"),
        vec![
            (SyntaxKind::STRING, 3),
            (SyntaxKind::WHITESPACE, 1),
            (SyntaxKind::COMMENT, 7),
            (SyntaxKind::WHITESPACE, 1),
            (SyntaxKind::SLASH, 1),
            (SyntaxKind::WHITESPACE, 1),
            (SyntaxKind::NUMBER, 1)
        ]
    );
    assert_eq!(
        lex("return /x/"),
        vec![
            (SyntaxKind::RETURN_KW, 6),
            (SyntaxKind::WHITESPACE, 1),
            (SyntaxKind::REGEX, 3)
        ]
    );
    assert_eq!(
        lex("x = /=/"),
        vec![
            (SyntaxKind::IDENT, 1),
            (SyntaxKind::WHITESPACE, 1),
            (SyntaxKind::EQ, 1),
            (SyntaxKind::WHITESPACE, 1),
            (SyntaxKind::REGEX, 3)
        ]
    );
    assert_eq!(lex("/[/]/g"), vec![(SyntaxKind::REGEX, 6)]);
    assert_eq!(lex("/a\\/b/i"), vec![(SyntaxKind::REGEX, 7)]);
    assert_eq!(lex("/[\\]/]/"), vec![(SyntaxKind::REGEX, 7)]);
    assert_eq!(
        lex("/a/gimsuy1"),
        vec![(SyntaxKind::REGEX, 9), (SyntaxKind::NUMBER, 1)]
    );
    assert_eq!(
        lex("/a/ /b/"),
        vec![
            (SyntaxKind::REGEX, 3),
            (SyntaxKind::WHITESPACE, 1),
            (SyntaxKind::SLASH, 1),
            (SyntaxKind::IDENT, 1),
            (SyntaxKind::SLASH, 1)
        ]
    );
}

#[test]
fn unterminated_regex() {
    assert_eq!(lex("/abc"), vec![(SyntaxKind::ERROR_TOKEN, 4)]);
    assert_eq!(lex("/"), vec![(SyntaxKind::ERROR_TOKEN, 1)]);
    assert_eq!(lex("/a\\"), vec![(SyntaxKind::ERROR_TOKEN, 3)]);
    assert_eq!(lex("/[a/"), vec![(SyntaxKind::ERROR_TOKEN, 4)]);
    assert_eq!(
        lex("/a\nb/"),
        vec![
            (SyntaxKind::ERROR_TOKEN, 2),
            (SyntaxKind::WHITESPACE, 1),
            (SyntaxKind::IDENT, 1),
            (SyntaxKind::SLASH, 1)
        ]
    );
    assert_eq!(
        lex("/a\\\nb"),
        vec![
            (SyntaxKind::ERROR_TOKEN, 3),
            (SyntaxKind::WHITESPACE, 1),
            (SyntaxKind::IDENT, 1)
        ]
    );
    assert_eq!(
        lex("/a\u{2028}"),
        vec![(SyntaxKind::ERROR_TOKEN, 2), (SyntaxKind::WHITESPACE, 3)]
    );
    assert_eq!(
        errors("/abc", 3),
        vec![Diagnostic {
            file_id: 3,
            kind: ErrorKind::UnterminatedRegex,
            start: 0,
            end: 4
        }]
    );
}

#[test]
fn comments() {
    assert_eq!(lex("//"), vec![(SyntaxKind::COMMENT, 2)]);
    assert_eq!(lex("/**/"), vec![(SyntaxKind::COMMENT, 4)]);
    assert_eq!(lex("/*/"), vec![(SyntaxKind::COMMENT, 3)]);
    assert_eq!(lex("/***/"), vec![(SyntaxKind::COMMENT, 5)]);
    assert_eq!(
        lex("/* a */*/"),
        vec![
            (SyntaxKind::COMMENT, 7),
            (SyntaxKind::STAR, 1),
            (SyntaxKind::ERROR_TOKEN, 1)
        ]
    );
    assert_eq!(
        lex("//a\u{2028}b"),
        vec![
            (SyntaxKind::COMMENT, 3),
            (SyntaxKind::WHITESPACE, 3),
            (SyntaxKind::IDENT, 1)
        ]
    );
    assert_eq!(
        lex("//a\r\nb"),
        vec![
            (SyntaxKind::COMMENT, 3),
            (SyntaxKind::WHITESPACE, 2),
            (SyntaxKind::IDENT, 1)
        ]
    );
    assert_eq!(
        lex("a//b/*c\nd"),
        vec![
            (SyntaxKind::IDENT, 1),
            (SyntaxKind::COMMENT, 6),
            (SyntaxKind::WHITESPACE, 1),
            (SyntaxKind::IDENT, 1)
        ]
    );
    assert!(errors("/* */ // x", 0).is_empty());
    assert_eq!(
        errors("a /* *", 1),
        vec![Diagnostic {
            file_id: 1,
            kind: ErrorKind::UnterminatedComment,
            start: 2,
            end: 6
        }]
    );
}

#[test]
fn whitespace_runs() {
    assert_eq!(lex("\t\n\r "), vec![(SyntaxKind::WHITESPACE, 4)]);
    assert_eq!(lex("\u{b}\u{c}"), vec![(SyntaxKind::WHITESPACE, 2)]);
    assert_eq!(
        lex("\u{85}\u{180e}\u{200b}\u{2028}\u{2029}\u{feff}"),
        vec![(SyntaxKind::WHITESPACE, 17)]
    );
    assert_eq!(
        lex("\u{feff}a"),
        vec![(SyntaxKind::WHITESPACE, 3), (SyntaxKind::IDENT, 1)]
    );
    assert_eq!(
        lex(" a "),
        vec![
            (SyntaxKind::WHITESPACE, 1),
            (SyntaxKind::IDENT, 1),
            (SyntaxKind::WHITESPACE, 1)
        ]
    );
}

#[test]
fn unexpected_characters() {
    assert_eq!(lex("\u{20ac}"), vec![(SyntaxKind::ERROR_TOKEN, 3)]);
    assert_eq!(lex("\u{1f600}"), vec![(SyntaxKind::ERROR_TOKEN, 4)]);
    assert_eq!(lex("\u{0}"), vec![(SyntaxKind::ERROR_TOKEN, 1)]);
    assert_eq!(lex("\u{7f}"), vec![(SyntaxKind::ERROR_TOKEN, 1)]);
    assert_eq!(lex("\u{a9}"), vec![(SyntaxKind::ERROR_TOKEN, 2)]);
    assert_eq!(
        lex("a\u{20ac}\u{20ac}b"),
        vec![
            (SyntaxKind::IDENT, 1),
            (SyntaxKind::ERROR_TOKEN, 3),
            (SyntaxKind::ERROR_TOKEN, 3),
            (SyntaxKind::IDENT, 1)
        ]
    );
    assert_eq!(
        errors(" \u{20ac}", 9),
        vec![Diagnostic {
            file_id: 9,
            kind: ErrorKind::UnexpectedCharacter,
            start: 1,
            end: 4
        }]
    );
}

#[test]
fn stray_escapes() {
    assert_eq!(lex("\\"), vec![(SyntaxKind::ERROR_TOKEN, 1)]);
    assert_eq!(
        lex("\\q"),
        vec![(SyntaxKind::ERROR_TOKEN, 1), (SyntaxKind::IDENT, 1)]
    );
    assert_eq!(lex("\\u"), vec![(SyntaxKind::ERROR_TOKEN, 2)]);
    assert_eq!(lex("\\u12"), vec![(SyntaxKind::ERROR_TOKEN, 4)]);
    assert_eq!(
        lex("\\u12g4"),
        vec![(SyntaxKind::ERROR_TOKEN, 4), (SyntaxKind::IDENT, 2)]
    );
    assert_eq!(lex("\\u{12"), vec![(SyntaxKind::ERROR_TOKEN, 5)]);
    assert_eq!(lex("\\u{}"), vec![(SyntaxKind::ERROR_TOKEN, 4)]);
    assert_eq!(lex("\\u{110000}"), vec![(SyntaxKind::ERROR_TOKEN, 10)]);
    assert_eq!(lex("\\u0020"), vec![(SyntaxKind::ERROR_TOKEN, 6)]);
    assert_eq!(lex("\\u{1F600}"), vec![(SyntaxKind::ERROR_TOKEN, 9)]);
    assert_eq!(
        lex("\\u0030a"),
        vec![(SyntaxKind::ERROR_TOKEN, 6), (SyntaxKind::IDENT, 1)]
    );
    assert_eq!(
        errors("\\u12", 0),
        vec![Diagnostic {
            file_id: 0,
            kind: ErrorKind::InvalidEscape,
            start: 0,
            end: 4
        }]
    );
}

#[test]
fn identifiers() {
    assert_eq!(lex("\\u0061bc"), vec![(SyntaxKind::IDENT, 8)]);
    assert_eq!(lex("a\\u{62}c"), vec![(SyntaxKind::IDENT, 8)]);
    assert_eq!(lex("a\\u0030"), vec![(SyntaxKind::IDENT, 7)]);
    assert_eq!(lex("\\u{10000}"), vec![(SyntaxKind::IDENT, 9)]);
    assert_eq!(
        lex("a\\u0020b"),
        vec![
            (SyntaxKind::IDENT, 1),
            (SyntaxKind::ERROR_TOKEN, 6),
            (SyntaxKind::IDENT, 1)
        ]
    );
    assert_eq!(
        lex("a\\u12"),
        vec![(SyntaxKind::IDENT, 1), (SyntaxKind::ERROR_TOKEN, 4)]
    );
    assert_eq!(lex("caf\u{e9}"), vec![(SyntaxKind::IDENT, 5)]);
    assert_eq!(lex("\u{4e2d}\u{6587}"), vec![(SyntaxKind::IDENT, 6)]);
    assert_eq!(lex("x\u{200d}y\u{200c}"), vec![(SyntaxKind::IDENT, 8)]);
    assert_eq!(lex("a\u{300}\u{660}"), vec![(SyntaxKind::IDENT, 5)]);
    assert_eq!(lex("\u{10000}\u{e0100}"), vec![(SyntaxKind::IDENT, 8)]);
    assert_eq!(lex("_$a1"), vec![(SyntaxKind::IDENT, 4)]);
    assert_eq!(lex("\u{2118}"), vec![(SyntaxKind::IDENT, 3)]);
    assert_eq!(
        lex("\u{300}a"),
        vec![(SyntaxKind::ERROR_TOKEN, 2), (SyntaxKind::IDENT, 1)]
    );
    assert_eq!(
        lex("a\u{20ac}"),
        vec![(SyntaxKind::IDENT, 1), (SyntaxKind::ERROR_TOKEN, 3)]
    );
    assert_eq!(
        lex("a-b"),
        vec![
            (SyntaxKind::IDENT, 1),
            (SyntaxKind::MINUS, 1),
            (SyntaxKind::IDENT, 1)
        ]
    );
}

#[test]
fn numbers() {
    assert_eq!(lex("0"), vec![(SyntaxKind::NUMBER, 1)]);
    assert_eq!(lex("00"), vec![(SyntaxKind::NUMBER, 2)]);
    assert_eq!(lex("5."), vec![(SyntaxKind::NUMBER, 2)]);
    assert_eq!(lex(".5"), vec![(SyntaxKind::NUMBER, 2)]);
    assert_eq!(lex("0.5e-10"), vec![(SyntaxKind::NUMBER, 7)]);
    assert_eq!(lex("1E5"), vec![(SyntaxKind::NUMBER, 3)]);
    assert_eq!(lex("1.e5"), vec![(SyntaxKind::NUMBER, 4)]);
    assert_eq!(lex("1_000_000"), vec![(SyntaxKind::NUMBER, 9)]);
    assert_eq!(lex("1_0.0_1e1_0"), vec![(SyntaxKind::NUMBER, 11)]);
    assert_eq!(lex("0xDEAD_beefn"), vec![(SyntaxKind::NUMBER, 12)]);
    assert_eq!(lex("0XfF"), vec![(SyntaxKind::NUMBER, 4)]);
    assert_eq!(lex("0O17"), vec![(SyntaxKind::NUMBER, 4)]);
    assert_eq!(lex("0n"), vec![(SyntaxKind::NUMBER, 2)]);
    assert_eq!(
        lex("1..toString"),
        vec![
            (SyntaxKind::NUMBER, 2),
            (SyntaxKind::DOT, 1),
            (SyntaxKind::IDENT, 8)
        ]
    );
    assert_eq!(
        lex("1.2.3"),
        vec![(SyntaxKind::NUMBER, 3), (SyntaxKind::NUMBER, 2)]
    );
    assert_eq!(
        lex("0b12"),
        vec![(SyntaxKind::NUMBER, 3), (SyntaxKind::NUMBER, 1)]
    );
    assert_eq!(
        lex("0o78"),
        vec![(SyntaxKind::NUMBER, 3), (SyntaxKind::NUMBER, 1)]
    );
    assert_eq!(
        lex("1+2"),
        vec![
            (SyntaxKind::NUMBER, 1),
            (SyntaxKind::PLUS, 1),
            (SyntaxKind::NUMBER, 1)
        ]
    );
    assert_eq!(
        lex("1e+5+1"),
        vec![
            (SyntaxKind::NUMBER, 4),
            (SyntaxKind::PLUS, 1),
            (SyntaxKind::NUMBER, 1)
        ]
    );
}

#[test]
fn invalid_numbers() {
    assert_eq!(lex("1_"), vec![(SyntaxKind::ERROR_TOKEN, 2)]);
    assert_eq!(lex("1__2"), vec![(SyntaxKind::ERROR_TOKEN, 4)]);
    assert_eq!(lex("1_.5"), vec![(SyntaxKind::ERROR_TOKEN, 4)]);
    assert_eq!(lex("1._5"), vec![(SyntaxKind::ERROR_TOKEN, 4)]);
    assert_eq!(lex("0x_1"), vec![(SyntaxKind::ERROR_TOKEN, 4)]);
    assert_eq!(lex("0x1_"), vec![(SyntaxKind::ERROR_TOKEN, 4)]);
    assert_eq!(lex("1e1_"), vec![(SyntaxKind::ERROR_TOKEN, 4)]);
    assert_eq!(lex("123abc"), vec![(SyntaxKind::ERROR_TOKEN, 6)]);
    assert_eq!(lex("1\u{e9}"), vec![(SyntaxKind::ERROR_TOKEN, 3)]);
    assert_eq!(lex("0x"), vec![(SyntaxKind::ERROR_TOKEN, 2)]);
    assert_eq!(lex("0xg"), vec![(SyntaxKind::ERROR_TOKEN, 3)]);
    assert_eq!(lex("0b2"), vec![(SyntaxKind::ERROR_TOKEN, 3)]);
    assert_eq!(lex("3e"), vec![(SyntaxKind::ERROR_TOKEN, 2)]);
    assert_eq!(lex("1.5n"), vec![(SyntaxKind::ERROR_TOKEN, 4)]);
    assert_eq!(lex("1e5n"), vec![(SyntaxKind::ERROR_TOKEN, 4)]);
    assert_eq!(lex("1nn"), vec![(SyntaxKind::ERROR_TOKEN, 3)]);
    assert_eq!(lex("1$"), vec![(SyntaxKind::ERROR_TOKEN, 2)]);
    assert_eq!(
        lex("3e+"),
        vec![(SyntaxKind::ERROR_TOKEN, 2), (SyntaxKind::PLUS, 1)]
    );
    assert_eq!(
        lex("1a b"),
        vec![
            (SyntaxKind::ERROR_TOKEN, 2),
            (SyntaxKind::WHITESPACE, 1),
            (SyntaxKind::IDENT, 1)
        ]
    );
    assert_eq!(
        lex("1\\u{61}b\\u0020"),
        vec![(SyntaxKind::ERROR_TOKEN, 8), (SyntaxKind::ERROR_TOKEN, 6)]
    );
    assert_eq!(
        lex("1\\u12"),
        vec![(SyntaxKind::NUMBER, 1), (SyntaxKind::ERROR_TOKEN, 4)]
    );
    assert_eq!(
        errors("x = 2_;", 4),
        vec![Diagnostic {
            file_id: 4,
            kind: ErrorKind::InvalidNumber,
            start: 4,
            end: 6
        }]
    );
}

#[test]
fn strings() {
    assert_eq!(lex("\"a'b\""), vec![(SyntaxKind::STRING, 5)]);
    assert_eq!(lex("'a\"b'"), vec![(SyntaxKind::STRING, 5)]);
    assert_eq!(lex("'a\\\nb'"), vec![(SyntaxKind::STRING, 6)]);
    assert_eq!(lex("'a\\\r\nb'"), vec![(SyntaxKind::STRING, 7)]);
    assert_eq!(lex("'a\\\u{2028}b'"), vec![(SyntaxKind::STRING, 8)]);
    assert_eq!(lex("'a\u{2028}b'"), vec![(SyntaxKind::STRING, 7)]);
    assert_eq!(lex("'\\u{1F600}'"), vec![(SyntaxKind::STRING, 11)]);
    assert_eq!(lex("'\\u{0}\\u{10FFFF}'"), vec![(SyntaxKind::STRING, 17)]);
    assert_eq!(lex("'\\uD800'"), vec![(SyntaxKind::STRING, 8)]);
    assert_eq!(lex("'\\\\'"), vec![(SyntaxKind::STRING, 4)]);
    assert_eq!(lex("'\\\u{1f980}'"), vec![(SyntaxKind::STRING, 7)]);
    assert_eq!(lex("'\\0\\n\\t'"), vec![(SyntaxKind::STRING, 8)]);
    assert_eq!(
        lex("'a''b'"),
        vec![(SyntaxKind::STRING, 3), (SyntaxKind::STRING, 3)]
    );
    assert!(errors("'a' \"b\" '\\x41'", 0).is_empty());
}

#[test]
fn invalid_strings() {
    assert_eq!(lex("'\\u{110000}'"), vec![(SyntaxKind::ERROR_TOKEN, 12)]);
    assert_eq!(lex("'\\u{}'"), vec![(SyntaxKind::ERROR_TOKEN, 6)]);
    assert_eq!(lex("'\\u{12'"), vec![(SyntaxKind::ERROR_TOKEN, 7)]);
    assert_eq!(lex("'\\xZ'"), vec![(SyntaxKind::ERROR_TOKEN, 5)]);
    assert_eq!(lex("'\\x4'"), vec![(SyntaxKind::ERROR_TOKEN, 5)]);
    assert_eq!(
        lex("'\\u21' + 1"),
        vec![
            (SyntaxKind::ERROR_TOKEN, 6),
            (SyntaxKind::WHITESPACE, 1),
            (SyntaxKind::PLUS, 1),
            (SyntaxKind::WHITESPACE, 1),
            (SyntaxKind::NUMBER, 1)
        ]
    );
    assert_eq!(
        lex("'abc\ndef'"),
        vec![
            (SyntaxKind::ERROR_TOKEN, 4),
            (SyntaxKind::WHITESPACE, 1),
            (SyntaxKind::IDENT, 3),
            (SyntaxKind::ERROR_TOKEN, 1)
        ]
    );
    assert_eq!(
        lex("\"abc\r"),
        vec![(SyntaxKind::ERROR_TOKEN, 4), (SyntaxKind::WHITESPACE, 1)]
    );
    assert_eq!(
        errors("'\\xZ'", 2),
        vec![Diagnostic {
            file_id: 2,
            kind: ErrorKind::InvalidEscape,
            start: 0,
            end: 5
        }]
    );
    assert_eq!(
        errors("'abc", 2),
        vec![Diagnostic {
            file_id: 2,
            kind: ErrorKind::UnterminatedString,
            start: 0,
            end: 4
        }]
    );
    assert_eq!(
        errors("'\\xZ", 2),
        vec![Diagnostic {
            file_id: 2,
            kind: ErrorKind::UnterminatedString,
            start: 0,
            end: 4
        }]
    );
}

#[test]
fn nested_templates() {
    assert_eq!(
        lex("`a${`b${c}`}d`"),
        vec![
            (SyntaxKind::BACKTICK, 1),
            (SyntaxKind::TEMPLATE_CHUNK, 1),
            (SyntaxKind::DOLLARCURLY, 2),
            (SyntaxKind::BACKTICK, 1),
            (SyntaxKind::TEMPLATE_CHUNK, 1),
            (SyntaxKind::DOLLARCURLY, 2),
            (SyntaxKind::IDENT, 1),
            (SyntaxKind::R_CURLY, 1),
            (SyntaxKind::BACKTICK, 1),
            (SyntaxKind::R_CURLY, 1),
            (SyntaxKind::TEMPLATE_CHUNK, 1),
            (SyntaxKind::BACKTICK, 1)
        ]
    );
}

#[test]
fn braces_inside_an_interpolation() {
    assert_eq!(
        lex("`${ {a:{}} }x`"),
        vec![
            (SyntaxKind::BACKTICK, 1),
            (SyntaxKind::DOLLARCURLY, 2),
            (SyntaxKind::WHITESPACE, 1),
            (SyntaxKind::L_CURLY, 1),
            (SyntaxKind::IDENT, 1),
            (SyntaxKind::COLON, 1),
            (SyntaxKind::L_CURLY, 1),
            (SyntaxKind::R_CURLY, 1),
            (SyntaxKind::R_CURLY, 1),
            (SyntaxKind::WHITESPACE, 1),
            (SyntaxKind::R_CURLY, 1),
            (SyntaxKind::TEMPLATE_CHUNK, 1),
            (SyntaxKind::BACKTICK, 1)
        ]
    );
    assert_eq!(
        lex("{`}`}"),
        vec![
            (SyntaxKind::L_CURLY, 1),
            (SyntaxKind::BACKTICK, 1),
            (SyntaxKind::TEMPLATE_CHUNK, 1),
            (SyntaxKind::BACKTICK, 1),
            (SyntaxKind::R_CURLY, 1)
        ]
    );
}

#[test]
fn template_chunks() {
    assert_eq!(
        lex("`$x$`"),
        vec![
            (SyntaxKind::BACKTICK, 1),
            (SyntaxKind::TEMPLATE_CHUNK, 3),
            (SyntaxKind::BACKTICK, 1)
        ]
    );
    assert_eq!(
        lex("`\\${a}`"),
        vec![
            (SyntaxKind::BACKTICK, 1),
            (SyntaxKind::TEMPLATE_CHUNK, 5),
            (SyntaxKind::BACKTICK, 1)
        ]
    );
    assert_eq!(
        lex("``"),
        vec![(SyntaxKind::BACKTICK, 1), (SyntaxKind::BACKTICK, 1)]
    );
    assert_eq!(
        lex("`'/*\n\"`"),
        vec![
            (SyntaxKind::BACKTICK, 1),
            (SyntaxKind::TEMPLATE_CHUNK, 5),
            (SyntaxKind::BACKTICK, 1)
        ]
    );
    assert_eq!(
        lex("`a` / 2"),
        vec![
            (SyntaxKind::BACKTICK, 1),
            (SyntaxKind::TEMPLATE_CHUNK, 1),
            (SyntaxKind::BACKTICK, 1),
            (SyntaxKind::WHITESPACE, 1),
            (SyntaxKind::SLASH, 1),
            (SyntaxKind::WHITESPACE, 1),
            (SyntaxKind::NUMBER, 1)
        ]
    );
    assert_eq!(
        lex("`${/}/}`"),
        vec![
            (SyntaxKind::BACKTICK, 1),
            (SyntaxKind::DOLLARCURLY, 2),
            (SyntaxKind::REGEX, 3),
            (SyntaxKind::R_CURLY, 1),
            (SyntaxKind::BACKTICK, 1)
        ]
    );
    assert_eq!(
        lex("`a\\"),
        vec![(SyntaxKind::BACKTICK, 1), (SyntaxKind::TEMPLATE_CHUNK, 2)]
    );
    assert_eq!(
        errors("`abc", 5),
        vec![Diagnostic {
            file_id: 5,
            kind: ErrorKind::UnterminatedTemplate,
            start: 1,
            end: 4
        }]
    );
    assert!(errors("`abc`", 5).is_empty());
}

#[test]
fn shebang_is_skipped_once() {
    let mut lexer = Lexer::from_str("#!/bin/sh", 0);
    lexer.strip_shebang();
    assert_eq!(lexer.cur(), 9);

    let mut lexer = Lexer::from_str("#!a\r\nb", 0);
    lexer.strip_shebang();
    assert_eq!(lexer.cur(), 3);

    let mut lexer = Lexer::from_str("#!a\u{2028}b", 0);
    lexer.strip_shebang();
    assert_eq!(lexer.cur(), 3);

    let mut lexer = Lexer::from_str("#!\u{e9}\u{20ac}\nb", 0);
    lexer.strip_shebang();
    assert_eq!(lexer.cur(), 7);

    let mut lexer = Lexer::from_str(" #!a\n", 0);
    lexer.strip_shebang();
    assert_eq!(lexer.cur(), 0);

    let mut lexer = Lexer::from_str("#a\n", 0);
    lexer.strip_shebang();
    assert_eq!(lexer.cur(), 0);

    let mut lexer = Lexer::from_str("", 0);
    lexer.strip_shebang();
    assert_eq!(lexer.cur(), 0);

    let mut lexer = Lexer::from_str("#", 0);
    lexer.strip_shebang();
    assert_eq!(lexer.cur(), 0);
}

#[test]
fn shebang_behind_the_start_stays() {
    let mut lexer = Lexer::from_str("#!a\nb", 0);
    let first = lexer.next().unwrap();
    assert_eq!(first.0.kind, SyntaxKind::HASH);
    assert_eq!(lexer.cur(), 1);
    lexer.strip_shebang();
    assert_eq!(lexer.cur(), 1);
    assert_eq!(lexer.next().unwrap().0.kind, SyntaxKind::BANG);
}

#[test]
fn tokenize_starts_behind_the_shebang() {
    let (start, tokens) = tokenize("#! /bin/node \n\n", 0);
    assert_eq!(start, 13);
    let kinds: Vec<(SyntaxKind, usize)> =
        tokens.iter().map(|item| (item.0.kind, item.0.len)).collect();
    assert_eq!(
        kinds,
        vec![(SyntaxKind::WHITESPACE, 2), (SyntaxKind::EOF, 0)]
    );

    let (start, tokens) = tokenize("a", 0);
    assert_eq!(start, 0);
    assert_eq!(tokens.len(), 2);

    assert_eq!(
        lex("#!a"),
        vec![
            (SyntaxKind::HASH, 1),
            (SyntaxKind::BANG, 1),
            (SyntaxKind::IDENT, 1)
        ]
    );
}

#[test]
fn diagnostics_name_the_file() {
    let lexer = Lexer::from_str("'a", 42);
    assert_eq!(lexer.file_id(), 42);
    let tokens = lexer.collect();
    assert_eq!(tokens[0].1.unwrap().file_id, 42);
}

#[test]
fn messages() {
    assert_eq!(ErrorKind::UnterminatedString.message(), "unterminated string literal");
    assert_eq!(ErrorKind::UnterminatedRegex.message(), "unterminated regex literal");
    assert_eq!(ErrorKind::UnterminatedComment.message(), "unterminated block comment");
    assert_eq!(ErrorKind::UnterminatedTemplate.message(), "unterminated template literal");
    assert_eq!(ErrorKind::InvalidEscape.message(), "invalid escape sequence");
    assert_eq!(ErrorKind::InvalidNumber.message(), "invalid numeric literal");
    assert_eq!(ErrorKind::UnexpectedCharacter.message(), "unexpected character");
}
