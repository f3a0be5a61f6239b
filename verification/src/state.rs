//! What the tokenizer remembers between two tokens: the last token that
//! was no trivia, and how deep it stands in template literals.

use crate::token::SyntaxKind;
use vstd::prelude::*;

verus! {

/// Whether a token of this kind ends an expression, so that a `/` behind it
/// divides: an identifier, a literal, `)`, `]`, or one of the keywords
/// `this`, `super`, `true`, `false` and `null`.
#[verifier::allow_in_spec]
pub fn ends_expression(kind: SyntaxKind) -> bool
    returns
        (kind == SyntaxKind::IDENT || kind == SyntaxKind::NUMBER || kind == SyntaxKind::STRING
            || kind == SyntaxKind::REGEX || kind == SyntaxKind::BACKTICK || kind
            == SyntaxKind::R_PAREN || kind == SyntaxKind::R_BRACK || kind == SyntaxKind::THIS_KW
            || kind == SyntaxKind::SUPER_KW || kind == SyntaxKind::TRUE_KW || kind
            == SyntaxKind::FALSE_KW || kind == SyntaxKind::NULL_KW),
{
    kind == SyntaxKind::IDENT || kind == SyntaxKind::NUMBER || kind == SyntaxKind::STRING || kind
        == SyntaxKind::REGEX || kind == SyntaxKind::BACKTICK || kind == SyntaxKind::R_PAREN || kind
        == SyntaxKind::R_BRACK || kind == SyntaxKind::THIS_KW || kind == SyntaxKind::SUPER_KW
        || kind == SyntaxKind::TRUE_KW || kind == SyntaxKind::FALSE_KW || kind
        == SyntaxKind::NULL_KW
}

/// The state as a value: the kind of the last token that was no trivia, and
/// one entry for each template literal that is open, innermost last. An
/// entry is 0 while the tokenizer reads the literal's text, and inside an
/// interpolation the number of braces that are open, the `${` counted.
pub struct State {
    pub prev: Option<SyntaxKind>,
    pub depths: Seq<usize>,
}

impl State {
    /// The state before the first token.
    pub open spec fn initial() -> State {
        State { prev: None, depths: Seq::empty() }
    }

    /// Whether the next token is text of a template literal.
    pub open spec fn in_template(self) -> bool {
        self.depths.len() > 0 && self.depths.last() == 0
    }

    /// Whether a `/` at this point starts a regular expression.
    pub open spec fn regex_allowed(self) -> bool {
        match self.prev {
            Some(kind) => !ends_expression(kind),
            None => true,
        }
    }

    /// The entries after a token of the given kind. A backtick opens a
    /// template literal or closes the one whose text is read; `${` opens an
    /// interpolation; inside an interpolation `{` and `}` count its braces
    /// up and down.
    pub open spec fn depths_after(self, kind: SyntaxKind) -> Seq<usize> {
        let top = self.depths.len() - 1;
        if self.in_template() {
            if kind == SyntaxKind::BACKTICK {
                self.depths.drop_last()
            } else if kind == SyntaxKind::DOLLARCURLY {
                self.depths.update(top, 1)
            } else {
                self.depths
            }
        } else if kind == SyntaxKind::BACKTICK {
            self.depths.push(0)
        } else if self.depths.len() > 0 && kind == SyntaxKind::L_CURLY {
            self.depths.update(top, (self.depths[top] + 1) as usize)
        } else if self.depths.len() > 0 && kind == SyntaxKind::R_CURLY {
            self.depths.update(top, (self.depths[top] - 1) as usize)
        } else {
            self.depths
        }
    }

    /// The state after a token of the given kind. Trivia changes nothing.
    pub open spec fn after(self, kind: SyntaxKind) -> State {
        if kind.spec_is_trivia() {
            self
        } else {
            State { prev: Some(kind), depths: self.depths_after(kind) }
        }
    }

    /// Whether no brace count overflows on a token of the given kind.
    pub open spec fn fits(self, kind: SyntaxKind) -> bool {
        kind == SyntaxKind::L_CURLY && self.depths.len() > 0 ==> self.depths.last() < usize::MAX
    }
}

/// The state of a tokenizer.
pub struct LexerState {
    prev: Option<SyntaxKind>,
    depths: Vec<usize>,
}

impl View for LexerState {
    type V = State;

    closed spec fn view(&self) -> State {
        State { prev: self.prev, depths: self.depths@ }
    }
}

impl LexerState {
    /// The state before the first token.
    pub fn new() -> (r: LexerState)
        ensures
            r@ == State::initial(),
    {
        LexerState { prev: None, depths: Vec::new() }
    }

    /// The kind of the last token that was no trivia.
    pub fn prev(&self) -> (r: Option<SyntaxKind>)
        ensures
            r == self@.prev,
    {
        self.prev
    }

    /// Whether the next token is text of a template literal.
    pub fn in_template(&self) -> (r: bool)
        ensures
            r == self@.in_template(),
    {
        let n = self.depths.len();
        n > 0 && self.depths[n - 1] == 0
    }

    /// Whether a `/` at this point starts a regular expression.
    pub fn regex_allowed(&self) -> (r: bool)
        ensures
            r == self@.regex_allowed(),
    {
        match self.prev {
            Some(kind) => !ends_expression(kind),
            None => true,
        }
    }

    /// Takes note of a token of the given kind.
    pub fn update(&mut self, kind: SyntaxKind)
        requires
            old(self)@.fits(kind),
        ensures
            final(self)@ == old(self)@.after(kind),
    {
        if kind.is_trivia() {
            return ;
        }
        let n = self.depths.len();
        if self.in_template() {
            if kind == SyntaxKind::BACKTICK {
                self.depths.pop();
            } else if kind == SyntaxKind::DOLLARCURLY {
                self.depths[n - 1] = 1;
            }
        } else if kind == SyntaxKind::BACKTICK {
            self.depths.push(0);
        } else if n > 0 && kind == SyntaxKind::L_CURLY {
            let depth = self.depths[n - 1];
            self.depths[n - 1] = depth + 1;
        } else if n > 0 && kind == SyntaxKind::R_CURLY {
            let depth = self.depths[n - 1];
            self.depths[n - 1] = depth - 1;
        }
        self.prev = Some(kind);
    }
}

} // verus!
