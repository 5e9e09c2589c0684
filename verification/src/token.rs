//! The tokens of the language.

use crate::statistics::Counter;
use vstd::prelude::*;

verus! {

/// One token. Identifiers and integer literals carry no text: a census
/// needs only to know that one occurred and, for a literal, its base.
#[derive(Clone, Copy, Debug, PartialEq, Eq, Structural)]
pub enum Token {
    /// An identifier.
    Ident,
    /// An integer literal in base ten.
    Decimal,
    /// An integer literal in base eight.
    Octal,
    /// An integer literal in base sixteen.
    Hexadecimal,
    /// `const`
    Const,
    /// `int`
    Int,
    /// `void`
    Void,
    /// `if`
    If,
    /// `else`
    Else,
    /// `while`
    While,
    /// `break`
    Break,
    /// `continue`
    Continue,
    /// `return`
    Return,
    /// `(`
    LParen,
    /// `)`
    RParen,
    /// `[`
    LBracket,
    /// `]`
    RBracket,
    /// `{`
    LBrace,
    /// `}`
    RBrace,
    /// `,`
    Comma,
    /// `;`
    Semicolon,
    /// `=`
    Assign,
    /// `+`
    Plus,
    /// `-`
    Minus,
    /// `!`
    Not,
    /// `*`
    Star,
    /// `/`
    Slash,
    /// `%`
    Percent,
    /// `<`
    Lt,
    /// `>`
    Gt,
    /// `<=`
    Le,
    /// `>=`
    Ge,
    /// `==`
    EqEq,
    /// `!=`
    NotEq,
    /// `&&`
    AndAnd,
    /// `||`
    OrOr,
}

/// The precedence level of unary and primary expressions, which bind
/// tighter than every binary operator.
pub const UNARY_LEVEL: u8 = 7;

impl Token {
    /// The token is an integer literal.
    pub open spec fn is_number(self) -> bool {
        self == Token::Decimal || self == Token::Octal || self == Token::Hexadecimal
    }

    /// The lexical counter of an integer literal's base.
    pub open spec fn base_counter(self) -> Counter {
        match self {
            Token::Octal => Counter::Octals,
            Token::Hexadecimal => Counter::Hexadecimals,
            _ => Counter::Decimals,
        }
    }

    /// The token can stand as a prefix operator.
    pub open spec fn is_prefix(self) -> bool {
        self == Token::Plus || self == Token::Minus || self == Token::Not
    }

    /// The precedence level of a binary operator, from 1 (`||`, which binds
    /// loosest) to 6 (`*`, `/`, `%`); 0 for a token that is no binary
    /// operator.
    pub open spec fn level(self) -> int {
        match self {
            Token::OrOr => 1,
            Token::AndAnd => 2,
            Token::EqEq | Token::NotEq => 3,
            Token::Lt | Token::Gt | Token::Le | Token::Ge => 4,
            Token::Plus | Token::Minus => 5,
            Token::Star | Token::Slash | Token::Percent => 6,
            _ => 0,
        }
    }

    /// The grammar counter of the expressions that a binary operator forms.
    pub open spec fn category(self) -> Counter {
        match self {
            Token::OrOr => Counter::LorExprs,
            Token::AndAnd => Counter::LandExprs,
            Token::EqEq | Token::NotEq => Counter::EqExprs,
            Token::Lt | Token::Gt | Token::Le | Token::Ge => Counter::RelExprs,
            Token::Plus | Token::Minus => Counter::AddExprs,
            _ => Counter::MulExprs,
        }
    }

    /// Tells whether the token can stand as a prefix operator.
    pub fn prefix(self) -> (r: bool)
        ensures
            r == self.is_prefix(),
    {
        match self {
            Token::Plus | Token::Minus | Token::Not => true,
            _ => false,
        }
    }

    /// The lexical counter of an integer literal's base.
    pub fn base(self) -> (r: Counter)
        ensures
            r == self.base_counter(),
    {
        match self {
            Token::Octal => Counter::Octals,
            Token::Hexadecimal => Counter::Hexadecimals,
            _ => Counter::Decimals,
        }
    }

    /// The precedence level of a binary operator, 0 for any other token.
    pub fn precedence(self) -> (r: u8)
        ensures
            r == self.level(),
            r < UNARY_LEVEL,
    {
        match self {
            Token::OrOr => 1,
            Token::AndAnd => 2,
            Token::EqEq | Token::NotEq => 3,
            Token::Lt | Token::Gt | Token::Le | Token::Ge => 4,
            Token::Plus | Token::Minus => 5,
            Token::Star | Token::Slash | Token::Percent => 6,
            _ => 0,
        }
    }

    /// The grammar counter of the expressions that a binary operator forms.
    pub fn kind(self) -> (r: Counter)
        ensures
            r == self.category(),
    {
        match self {
            Token::OrOr => Counter::LorExprs,
            Token::AndAnd => Counter::LandExprs,
            Token::EqEq | Token::NotEq => Counter::EqExprs,
            Token::Lt | Token::Gt | Token::Le | Token::Ge => Counter::RelExprs,
            Token::Plus | Token::Minus => Counter::AddExprs,
            _ => Counter::MulExprs,
        }
    }
}

/// The token at position `i`, if there is one.
pub open spec fn peek(ts: Seq<Token>, i: int) -> Option<Token> {
    if 0 <= i < ts.len() {
        Some(ts[i])
    } else {
        None
    }
}

} // verus!
