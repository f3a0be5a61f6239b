//! Token kinds, tokens and the diagnostics attached to them.

use vstd::prelude::*;

verus! {

/// The closed vocabulary of token kinds.
#[allow(non_camel_case_types)]
#[derive(Clone, Copy, Debug, PartialEq, Eq, Structural, Hash)]
pub enum SyntaxKind {
    /// The end of the text: the last token, and an empty one.
    EOF,
    /// An identifier.
    IDENT,
    /// A numeric literal.
    NUMBER,
    /// A string literal.
    STRING,
    /// A regular expression literal with its flags.
    REGEX,
    /// A piece of literal text inside a template literal.
    TEMPLATE_CHUNK,
    /// A run of whitespace, line terminators among it.
    WHITESPACE,
    /// A line comment or a block comment.
    COMMENT,
    /// A malformed span of the text.
    ERROR_TOKEN,
    /// `;`
    SEMICOLON,
    /// `,`
    COMMA,
    /// `(`
    L_PAREN,
    /// `)`
    R_PAREN,
    /// `{`
    L_CURLY,
    /// `}`
    R_CURLY,
    /// `[`
    L_BRACK,
    /// `]`
    R_BRACK,
    /// `<`
    L_ANGLE,
    /// `>`
    R_ANGLE,
    /// `~`
    TILDE,
    /// `?`
    QUESTION,
    /// `??`
    QUESTION2,
    /// `?.`
    QUESTIONDOT,
    /// `&`
    AMP,
    /// `|`
    PIPE,
    /// `+`
    PLUS,
    /// `++`
    PLUS2,
    /// `*`
    STAR,
    /// `**`
    STAR2,
    /// `/`
    SLASH,
    /// `^`
    CARET,
    /// `%`
    PERCENT,
    /// `.`
    DOT,
    /// `...`
    DOT2,
    /// `:`
    COLON,
    /// `=`
    EQ,
    /// `==`
    EQ2,
    /// `===`
    EQ3,
    /// `=>`
    FAT_ARROW,
    /// `!`
    BANG,
    /// `!=`
    NEQ,
    /// `!==`
    NEQ2,
    /// `-`
    MINUS,
    /// `--`
    MINUS2,
    /// `<=`
    LTEQ,
    /// `>=`
    GTEQ,
    /// `+=`
    PLUSEQ,
    /// `-=`
    MINUSEQ,
    /// `|=`
    PIPEEQ,
    /// `&=`
    AMPEQ,
    /// `^=`
    CARETEQ,
    /// `/=`
    SLASHEQ,
    /// `*=`
    STAREQ,
    /// `%=`
    PERCENTEQ,
    /// `&&`
    AMP2,
    /// `||`
    PIPE2,
    /// `<<`
    SHL,
    /// `>>`
    SHR,
    /// `>>>`
    USHR,
    /// `<<=`
    SHLEQ,
    /// `>>=`
    SHREQ,
    /// `>>>=`
    USHREQ,
    /// `&&=`
    AMP2EQ,
    /// `||=`
    PIPE2EQ,
    /// `**=`
    STAR2EQ,
    /// `??=`
    QUESTION2EQ,
    /// `@`
    AT,
    /// `#`
    HASH,
    /// `` ` ``
    BACKTICK,
    /// `${`
    DOLLARCURLY,
    /// The keyword `await`.
    AWAIT_KW,
    /// The keyword `break`.
    BREAK_KW,
    /// The keyword `case`.
    CASE_KW,
    /// The keyword `catch`.
    CATCH_KW,
    /// The keyword `class`.
    CLASS_KW,
    /// The keyword `const`.
    CONST_KW,
    /// The keyword `continue`.
    CONTINUE_KW,
    /// The keyword `debugger`.
    DEBUGGER_KW,
    /// The keyword `default`.
    DEFAULT_KW,
    /// The keyword `delete`.
    DELETE_KW,
    /// The keyword `do`.
    DO_KW,
    /// The keyword `else`.
    ELSE_KW,
    /// The keyword `enum`.
    ENUM_KW,
    /// The keyword `export`.
    EXPORT_KW,
    /// The keyword `extends`.
    EXTENDS_KW,
    /// The keyword `false`.
    FALSE_KW,
    /// The keyword `finally`.
    FINALLY_KW,
    /// The keyword `for`.
    FOR_KW,
    /// The keyword `function`.
    FUNCTION_KW,
    /// The keyword `if`.
    IF_KW,
    /// The keyword `in`.
    IN_KW,
    /// The keyword `instanceof`.
    INSTANCEOF_KW,
    /// The keyword `interface`.
    INTERFACE_KW,
    /// The keyword `import`.
    IMPORT_KW,
    /// The keyword `implements`.
    IMPLEMENTS_KW,
    /// The keyword `new`.
    NEW_KW,
    /// The keyword `null`.
    NULL_KW,
    /// The keyword `package`.
    PACKAGE_KW,
    /// The keyword `private`.
    PRIVATE_KW,
    /// The keyword `protected`.
    PROTECTED_KW,
    /// The keyword `public`.
    PUBLIC_KW,
    /// The keyword `return`.
    RETURN_KW,
    /// The keyword `super`.
    SUPER_KW,
    /// The keyword `switch`.
    SWITCH_KW,
    /// The keyword `this`.
    THIS_KW,
    /// The keyword `throw`.
    THROW_KW,
    /// The keyword `try`.
    TRY_KW,
    /// The keyword `true`.
    TRUE_KW,
    /// The keyword `typeof`.
    TYPEOF_KW,
    /// The keyword `var`.
    VAR_KW,
    /// The keyword `void`.
    VOID_KW,
    /// The keyword `while`.
    WHILE_KW,
    /// The keyword `with`.
    WITH_KW,
    /// The keyword `yield`.
    YIELD_KW,
}

impl SyntaxKind {
    /// Whitespace and comments: kept for losslessness, without meaning.
    pub open spec fn spec_is_trivia(self) -> bool {
        self == SyntaxKind::WHITESPACE || self == SyntaxKind::COMMENT
    }

    /// Whether this kind is whitespace or a comment.
    #[verifier::when_used_as_spec(spec_is_trivia)]
    pub fn is_trivia(self) -> (r: bool)
        ensures
            r == self.spec_is_trivia(),
    {
        self == SyntaxKind::WHITESPACE || self == SyntaxKind::COMMENT
    }
}

/// A classified, length-delimited unit of source text. A token carries no
/// position: its offset is the sum of the lengths before it.
#[derive(Clone, Copy, Debug, PartialEq, Eq, Structural, Hash)]
pub struct Token {
    pub kind: SyntaxKind,
    pub len: usize,
}

impl Token {
    /// A token of the given kind and byte length.
    pub fn new(kind: SyntaxKind, len: usize) -> (t: Token)
        ensures
            t == (Token { kind, len }),
    {
        Token { kind, len }
    }
}

/// Why a span of the source is malformed.
#[derive(Clone, Copy, Debug, PartialEq, Eq, Structural, Hash)]
pub enum ErrorKind {
    /// A string that the end of the line or of the input cuts off.
    UnterminatedString,
    /// A regular expression that the end of the line or of the input cuts
    /// off.
    UnterminatedRegex,
    /// A block comment without its closing `*/`.
    UnterminatedComment,
    /// A template literal without its closing backtick.
    UnterminatedTemplate,
    /// An escape sequence with too few or with wrong digits, or one that
    /// names no character an identifier can hold.
    InvalidEscape,
    /// A number that runs into an identifier, or with a separator that does
    /// not stand between two digits.
    InvalidNumber,
    /// A character that no token can start with.
    UnexpectedCharacter,
}

impl ErrorKind {
    /// What is wrong, in words.
    pub open spec fn message_text(self) -> Seq<char> {
        match self {
            ErrorKind::UnterminatedString => "unterminated string literal"@,
            ErrorKind::UnterminatedRegex => "unterminated regex literal"@,
            ErrorKind::UnterminatedComment => "unterminated block comment"@,
            ErrorKind::UnterminatedTemplate => "unterminated template literal"@,
            ErrorKind::InvalidEscape => "invalid escape sequence"@,
            ErrorKind::InvalidNumber => "invalid numeric literal"@,
            ErrorKind::UnexpectedCharacter => "unexpected character"@,
        }
    }

    /// What is wrong, in words.
    pub fn message(self) -> (r: &'static str)
        ensures
            r@ == self.message_text(),
    {
        match self {
            ErrorKind::UnterminatedString => "unterminated string literal",
            ErrorKind::UnterminatedRegex => "unterminated regex literal",
            ErrorKind::UnterminatedComment => "unterminated block comment",
            ErrorKind::UnterminatedTemplate => "unterminated template literal",
            ErrorKind::InvalidEscape => "invalid escape sequence",
            ErrorKind::InvalidNumber => "invalid numeric literal",
            ErrorKind::UnexpectedCharacter => "unexpected character",
        }
    }
}

/// What is wrong with a token, and where: the byte range of the token in the
/// file `file_id`.
#[derive(Clone, Copy, Debug, PartialEq, Eq, Structural, Hash)]
pub struct Diagnostic {
    pub file_id: usize,
    pub kind: ErrorKind,
    pub start: usize,
    pub end: usize,
}

/// A token as the grammar defines it: its kind, the offset at which it ends,
/// and what is wrong with it, if anything.
pub struct Lexed {
    pub kind: SyntaxKind,
    pub end: int,
    pub error: Option<ErrorKind>,
}

/// A token as a scanner found it.
#[derive(Clone, Copy, Debug)]
pub struct Scanned {
    pub kind: SyntaxKind,
    pub end: usize,
    pub error: Option<ErrorKind>,
}

impl View for Scanned {
    type V = Lexed;

    open spec fn view(&self) -> Lexed {
        Lexed { kind: self.kind, end: self.end as int, error: self.error }
    }
}

impl Scanned {
    /// A well-formed token of the given kind that ends at `end`.
    pub fn good(kind: SyntaxKind, end: usize) -> (r: Scanned)
        ensures
            r@ == (Lexed { kind, end: end as int, error: None }),
    {
        Scanned { kind, end, error: None }
    }

    /// An error token that ends at `end`.
    pub fn bad(error: ErrorKind, end: usize) -> (r: Scanned)
        ensures
            r@ == (Lexed { kind: SyntaxKind::ERROR_TOKEN, end: end as int, error: Some(error) }),
    {
        Scanned { kind: SyntaxKind::ERROR_TOKEN, end, error: Some(error) }
    }
}

} // verus!
