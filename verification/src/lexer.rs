//! From bytes to tokens, by longest match.

use crate::token::Token;
use vstd::prelude::*;
use vstd::string::StringSliceAdditionalSpecFns;

verus! {

/// The byte of horizontal tab.
pub const TAB: u8 = 9;

/// The byte of carriage return.
pub const CARRIAGE_RETURN: u8 = 13;

/// The byte of ` `.
pub const BLANK: u8 = 32;

/// The byte of `!`.
pub const BANG: u8 = 33;

/// The byte of `%`.
pub const PERCENT: u8 = 37;

/// The byte of `&`.
pub const AMPERSAND: u8 = 38;

/// The byte of `(`.
pub const LPAREN: u8 = 40;

/// The byte of `)`.
pub const RPAREN: u8 = 41;

/// The byte of `*`.
pub const STAR: u8 = 42;

/// The byte of `+`.
pub const PLUS: u8 = 43;

/// The byte of `,`.
pub const COMMA: u8 = 44;

/// The byte of `-`.
pub const MINUS: u8 = 45;

/// The byte of `/`.
pub const SLASH: u8 = 47;

/// The byte of `0`.
pub const DIGIT_0: u8 = 48;

/// The byte of `7`.
pub const DIGIT_7: u8 = 55;

/// The byte of `9`.
pub const DIGIT_9: u8 = 57;

/// The byte of `;`.
pub const SEMICOLON: u8 = 59;

/// The byte of `<`.
pub const LESS: u8 = 60;

/// The byte of `=`.
pub const EQUALS: u8 = 61;

/// The byte of `>`.
pub const GREATER: u8 = 62;

/// The byte of `A`.
pub const UPPER_A: u8 = 65;

/// The byte of `F`.
pub const UPPER_F: u8 = 70;

/// The byte of `X`.
pub const UPPER_X: u8 = 88;

/// The byte of `Z`.
pub const UPPER_Z: u8 = 90;

/// The byte of `[`.
pub const LBRACKET: u8 = 91;

/// The byte of `]`.
pub const RBRACKET: u8 = 93;

/// The byte of `_`.
pub const UNDERSCORE: u8 = 95;

/// The byte of `a`.
pub const LOWER_A: u8 = 97;

/// The byte of `f`.
pub const LOWER_F: u8 = 102;

/// The byte of `x`.
pub const LOWER_X: u8 = 120;

/// The byte of `z`.
pub const LOWER_Z: u8 = 122;

/// The byte of `{`.
pub const LBRACE: u8 = 123;

/// The byte of `|`.
pub const PIPE: u8 = 124;

/// The byte of `}`.
pub const RBRACE: u8 = 125;

/// A class of bytes of which a token, or the space between tokens, holds a
/// run.
#[derive(Clone, Copy, Debug, PartialEq, Eq, Structural)]
pub enum Class {
    /// White space: blank, tab, line feed, vertical tab, form feed, carriage
    /// return.
    Space,
    /// What an identifier or keyword holds: letters, digits, underscore.
    Word,
    /// `0` to `9`.
    Digit,
    /// `0` to `7`.
    Octal,
    /// `0` to `9`, `a` to `f`, `A` to `F`.
    Hex,
}

/// The byte is an ASCII letter or an underscore.
pub open spec fn is_letter(b: u8) -> bool {
    (LOWER_A <= b && b <= LOWER_Z) || (UPPER_A <= b && b <= UPPER_Z) || b == UNDERSCORE
}

impl Class {
    /// The byte belongs to the class.
    pub open spec fn holds(self, b: u8) -> bool {
        match self {
            Class::Space => b == BLANK || (TAB <= b && b <= CARRIAGE_RETURN),
            Class::Word => is_letter(b) || (DIGIT_0 <= b && b <= DIGIT_9),
            Class::Digit => DIGIT_0 <= b && b <= DIGIT_9,
            Class::Octal => DIGIT_0 <= b && b <= DIGIT_7,
            Class::Hex => (DIGIT_0 <= b && b <= DIGIT_9) || (LOWER_A <= b && b <= LOWER_F) || (UPPER_A <= b
                && b <= UPPER_F),
        }
    }

    /// Tests whether the byte belongs to the class.
    pub fn test(self, b: u8) -> (r: bool)
        ensures
            r == self.holds(b),
    {
        match self {
            Class::Space => b == BLANK || (TAB <= b && b <= CARRIAGE_RETURN),
            Class::Word => (LOWER_A <= b && b <= LOWER_Z) || (UPPER_A <= b && b <= UPPER_Z) || b == UNDERSCORE || (
            DIGIT_0 <= b && b <= DIGIT_9),
            Class::Digit => DIGIT_0 <= b && b <= DIGIT_9,
            Class::Octal => DIGIT_0 <= b && b <= DIGIT_7,
            Class::Hex => (DIGIT_0 <= b && b <= DIGIT_9) || (LOWER_A <= b && b <= LOWER_F) || (UPPER_A <= b
                && b <= UPPER_F),
        }
    }
}

/// Where the longest run of bytes of one class that starts at `i` ends.
pub open spec fn run_end(s: Seq<u8>, i: int, class: Class) -> int
    decreases s.len() - i,
{
    if 0 <= i < s.len() && class.holds(s[i]) {
        run_end(s, i + 1, class)
    } else {
        i
    }
}

/// A run ends at or after its start, and within the text.
pub proof fn lemma_run_end_bounds(s: Seq<u8>, i: int, class: Class)
    requires
        0 <= i <= s.len(),
    ensures
        i <= run_end(s, i, class) <= s.len(),
    decreases s.len() - i,
{
    if i < s.len() && class.holds(s[i]) {
        lemma_run_end_bounds(s, i + 1, class);
    }
}

/// The token that a word spells: a keyword, or else an identifier.
pub open spec fn word(w: Seq<u8>) -> Token {
    if w == "const".spec_bytes() {
        Token::Const
    } else if w == "int".spec_bytes() {
        Token::Int
    } else if w == "void".spec_bytes() {
        Token::Void
    } else if w == "if".spec_bytes() {
        Token::If
    } else if w == "else".spec_bytes() {
        Token::Else
    } else if w == "while".spec_bytes() {
        Token::While
    } else if w == "break".spec_bytes() {
        Token::Break
    } else if w == "continue".spec_bytes() {
        Token::Continue
    } else if w == "return".spec_bytes() {
        Token::Return
    } else {
        Token::Ident
    }
}

/// The integer literal that starts at `i`, where a digit stands, and where
/// it ends. `0x` or `0X` before a hexadecimal digit opens a hexadecimal
/// literal; any other `0` opens an octal literal if an octal digit follows
/// it and is the decimal literal `0` if none does; any other digit opens a
/// decimal literal.
pub open spec fn number(s: Seq<u8>, i: int) -> (Token, int) {
    if s[i] == DIGIT_0 {
        if i + 2 < s.len() && (s[i + 1] == LOWER_X || s[i + 1] == UPPER_X) && Class::Hex.holds(
            s[i + 2],
        ) {
            (Token::Hexadecimal, run_end(s, i + 2, Class::Hex))
        } else {
            let j = run_end(s, i + 1, Class::Octal);
            (
                if j == i + 1 {
                    Token::Decimal
                } else {
                    Token::Octal
                },
                j,
            )
        }
    } else {
        (Token::Decimal, run_end(s, i + 1, Class::Digit))
    }
}

/// The byte that follows position `i` is `b`.
pub open spec fn next_is(s: Seq<u8>, i: int, b: u8) -> bool {
    i + 1 < s.len() && s[i + 1] == b
}

/// The punctuation mark or operator that starts at `i`, and where it ends.
/// A two-byte operator is preferred to its one-byte beginning.
pub open spec fn mark(s: Seq<u8>, i: int) -> Option<(Token, int)> {
    let b = s[i];
    if b == LPAREN {
        Some((Token::LParen, i + 1))
    } else if b == RPAREN {
        Some((Token::RParen, i + 1))
    } else if b == LBRACKET {
        Some((Token::LBracket, i + 1))
    } else if b == RBRACKET {
        Some((Token::RBracket, i + 1))
    } else if b == LBRACE {
        Some((Token::LBrace, i + 1))
    } else if b == RBRACE {
        Some((Token::RBrace, i + 1))
    } else if b == COMMA {
        Some((Token::Comma, i + 1))
    } else if b == SEMICOLON {
        Some((Token::Semicolon, i + 1))
    } else if b == PLUS {
        Some((Token::Plus, i + 1))
    } else if b == MINUS {
        Some((Token::Minus, i + 1))
    } else if b == STAR {
        Some((Token::Star, i + 1))
    } else if b == SLASH {
        Some((Token::Slash, i + 1))
    } else if b == PERCENT {
        Some((Token::Percent, i + 1))
    } else if b == EQUALS {
        if next_is(s, i, EQUALS) {
            Some((Token::EqEq, i + 2))
        } else {
            Some((Token::Assign, i + 1))
        }
    } else if b == BANG {
        if next_is(s, i, EQUALS) {
            Some((Token::NotEq, i + 2))
        } else {
            Some((Token::Not, i + 1))
        }
    } else if b == LESS {
        if next_is(s, i, EQUALS) {
            Some((Token::Le, i + 2))
        } else {
            Some((Token::Lt, i + 1))
        }
    } else if b == GREATER {
        if next_is(s, i, EQUALS) {
            Some((Token::Ge, i + 2))
        } else {
            Some((Token::Gt, i + 1))
        }
    } else if b == AMPERSAND && next_is(s, i, AMPERSAND) {
        Some((Token::AndAnd, i + 2))
    } else if b == PIPE && next_is(s, i, PIPE) {
        Some((Token::OrOr, i + 2))
    } else {
        None
    }
}

/// The token that starts at `i`, where a byte stands that is no white
/// space, and where it ends; `None` where no token starts with that byte.
pub open spec fn scan(s: Seq<u8>, i: int) -> Option<(Token, int)> {
    if is_letter(s[i]) {
        let j = run_end(s, i + 1, Class::Word);
        Some((word(s.subrange(i, j)), j))
    } else if Class::Digit.holds(s[i]) {
        Some(number(s, i))
    } else {
        mark(s, i)
    }
}

/// The tokens of the text from position `i` on; `None` where some byte
/// from there on starts no token.
pub open spec fn lex_from(s: Seq<u8>, i: int) -> Option<Seq<Token>>
    decreases s.len() - i,
{
    let j = run_end(s, i, Class::Space);
    if j >= s.len() {
        Some(Seq::empty())
    } else {
        match scan(s, j) {
            Some((t, k)) => if i <= j < k <= s.len() {
                match lex_from(s, k) {
                    Some(rest) => Some(seq![t] + rest),
                    None => None,
                }
            } else {
                None
            },
            None => None,
        }
    }
}

/// The tokens of a text: white space parts tokens and is dropped, each
/// token is the longest that starts where it does, and a byte that starts
/// no token makes the whole text fail.
pub open spec fn lex(s: Seq<u8>) -> Option<Seq<Token>> {
    lex_from(s, 0)
}

/// Finds where the longest run of bytes of one class that starts at `i`
/// ends.
pub(crate) fn skip_run(s: &[u8], i: usize, class: Class) -> (r: usize)
    requires
        i <= s@.len(),
    ensures
        r == run_end(s@, i as int, class),
        i <= r <= s@.len(),
{
    let mut j: usize = i;
    while j < s.len() && class.test(s[j])
        invariant
            i <= j <= s@.len(),
            run_end(s@, i as int, class) == run_end(s@, j as int, class),
        decreases s@.len() - j,
    {
        j = j + 1;
    }
    j
}

/// Tells whether the bytes from `i` up to `j` are those of `w`.
pub(crate) fn spells(s: &[u8], i: usize, j: usize, w: &str) -> (r: bool)
    requires
        i <= j <= s@.len(),
    ensures
        r == (s@.subrange(i as int, j as int) == w.spec_bytes()),
{
    let word = w.as_bytes();
    if j - i != word.len() {
        return false;
    }
    let mut k: usize = 0;
    while k < word.len()
        invariant
            i <= j <= s@.len(),
            j - i == word@.len(),
            k <= word@.len(),
            word@ == w.spec_bytes(),
            forall|n: int| 0 <= n < k ==> s@[i + n] == word@[n],
        decreases word@.len() - k,
    {
        if s[i + k] != word[k] {
            assert(s@.subrange(i as int, j as int)[k as int] != word@[k as int]);
            return false;
        }
        k = k + 1;
    }
    assert(s@.subrange(i as int, j as int) =~= word@);
    true
}

/// Reads the keyword or identifier that the bytes from `i` up to `j` spell.
pub(crate) fn read_word(s: &[u8], i: usize, j: usize) -> (t: Token)
    requires
        i <= j <= s@.len(),
    ensures
        t == word(s@.subrange(i as int, j as int)),
{
    if spells(s, i, j, "const") {
        Token::Const
    } else if spells(s, i, j, "int") {
        Token::Int
    } else if spells(s, i, j, "void") {
        Token::Void
    } else if spells(s, i, j, "if") {
        Token::If
    } else if spells(s, i, j, "else") {
        Token::Else
    } else if spells(s, i, j, "while") {
        Token::While
    } else if spells(s, i, j, "break") {
        Token::Break
    } else if spells(s, i, j, "continue") {
        Token::Continue
    } else if spells(s, i, j, "return") {
        Token::Return
    } else {
        Token::Ident
    }
}

/// Reads the integer literal that starts at `i`.
pub(crate) fn read_number(s: &[u8], i: usize) -> (r: (Token, usize))
    requires
        i < s@.len(),
        Class::Digit.holds(s@[i as int]),
    ensures
        (r.0, r.1 as int) == number(s@, i as int),
        i < r.1 <= s@.len(),
{
    if s[i] == DIGIT_0 {
        if s.len() - i > 2 && (s[i + 1] == LOWER_X || s[i + 1] == UPPER_X) && Class::Hex.test(s[i + 2]) {
            (Token::Hexadecimal, skip_run(s, i + 2, Class::Hex))
        } else {
            let j = skip_run(s, i + 1, Class::Octal);
            if j == i + 1 {
                (Token::Decimal, j)
            } else {
                (Token::Octal, j)
            }
        }
    } else {
        (Token::Decimal, skip_run(s, i + 1, Class::Digit))
    }
}

/// Tells whether the byte that follows position `i` is `b`.
pub(crate) fn followed_by(s: &[u8], i: usize, b: u8) -> (r: bool)
    requires
        i < s@.len(),
    ensures
        r == next_is(s@, i as int, b),
{
    s.len() - i > 1 && s[i + 1] == b
}

/// Reads the punctuation mark or operator that starts at `i`.
pub(crate) fn read_mark(s: &[u8], i: usize) -> (r: Option<(Token, usize)>)
    requires
        i < s@.len(),
    ensures
        match r {
            Some((t, j)) => mark(s@, i as int) == Some((t, j as int)) && i < j <= s@.len(),
            None => mark(s@, i as int) is None,
        },
{
    let b = s[i];
    if b == LPAREN {
        Some((Token::LParen, i + 1))
    } else if b == RPAREN {
        Some((Token::RParen, i + 1))
    } else if b == LBRACKET {
        Some((Token::LBracket, i + 1))
    } else if b == RBRACKET {
        Some((Token::RBracket, i + 1))
    } else if b == LBRACE {
        Some((Token::LBrace, i + 1))
    } else if b == RBRACE {
        Some((Token::RBrace, i + 1))
    } else if b == COMMA {
        Some((Token::Comma, i + 1))
    } else if b == SEMICOLON {
        Some((Token::Semicolon, i + 1))
    } else if b == PLUS {
        Some((Token::Plus, i + 1))
    } else if b == MINUS {
        Some((Token::Minus, i + 1))
    } else if b == STAR {
        Some((Token::Star, i + 1))
    } else if b == SLASH {
        Some((Token::Slash, i + 1))
    } else if b == PERCENT {
        Some((Token::Percent, i + 1))
    } else if b == EQUALS {
        if followed_by(s, i, EQUALS) {
            Some((Token::EqEq, i + 2))
        } else {
            Some((Token::Assign, i + 1))
        }
    } else if b == BANG {
        if followed_by(s, i, EQUALS) {
            Some((Token::NotEq, i + 2))
        } else {
            Some((Token::Not, i + 1))
        }
    } else if b == LESS {
        if followed_by(s, i, EQUALS) {
            Some((Token::Le, i + 2))
        } else {
            Some((Token::Lt, i + 1))
        }
    } else if b == GREATER {
        if followed_by(s, i, EQUALS) {
            Some((Token::Ge, i + 2))
        } else {
            Some((Token::Gt, i + 1))
        }
    } else if b == AMPERSAND && followed_by(s, i, AMPERSAND) {
        Some((Token::AndAnd, i + 2))
    } else if b == PIPE && followed_by(s, i, PIPE) {
        Some((Token::OrOr, i + 2))
    } else {
        None
    }
}

/// Reads the token that starts at `i`.
pub(crate) fn read_token(s: &[u8], i: usize) -> (r: Option<(Token, usize)>)
    requires
        i < s@.len(),
    ensures
        match r {
            Some((t, j)) => scan(s@, i as int) == Some((t, j as int)) && i < j <= s@.len(),
            None => scan(s@, i as int) is None,
        },
{
    let b = s[i];
    if (LOWER_A <= b && b <= LOWER_Z) || (UPPER_A <= b && b <= UPPER_Z) || b == UNDERSCORE {
        let j = skip_run(s, i + 1, Class::Word);
        Some((read_word(s, i, j), j))
    } else if Class::Digit.test(b) {
        Some(read_number(s, i))
    } else {
        read_mark(s, i)
    }
}

/// Splits a text into its tokens, or fails where some byte starts none.
pub fn tokenize(s: &[u8]) -> (r: Option<Vec<Token>>)
    ensures
        match r {
            Some(v) => lex(s@) == Some(v@) && v@.len() <= s@.len(),
            None => lex(s@) is None,
        },
{
    let mut v: Vec<Token> = Vec::new();
    let mut i: usize = 0;
    loop
        invariant
            i <= s@.len(),
            v@.len() <= i,
            match lex_from(s@, i as int) {
                Some(rest) => lex_from(s@, 0) == Some(v@ + rest),
                None => lex_from(s@, 0) is None,
            },
        decreases s@.len() - i,
    {
        let j = skip_run(s, i, Class::Space);
        if j >= s.len() {
            assert(v@ + Seq::<Token>::empty() =~= v@);
            return Some(v);
        }
        match read_token(s, j) {
            None => {
                return None;
            },
            Some((t, k)) => {
                proof {
                    match lex_from(s@, k as int) {
                        Some(rest) => {
                            assert(v@.push(t) + rest =~= v@ + (seq![t] + rest));
                        },
                        None => {},
                    }
                }
                v.push(t);
                i = k;
            },
        }
    }
}

} // verus!
