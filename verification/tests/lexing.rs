use syan::lexer::tokenize;
use syan::Token;

#[test]
fn literal_bases() {
    assert_eq!(tokenize(b"0"), Some(vec![Token::Decimal]));
    assert_eq!(tokenize(b"010"), Some(vec![Token::Octal]));
    assert_eq!(tokenize(b"0x1A"), Some(vec![Token::Hexadecimal]));
    assert_eq!(tokenize(b"0X1a"), Some(vec![Token::Hexadecimal]));
    assert_eq!(tokenize(b"10"), Some(vec![Token::Decimal]));
    assert_eq!(tokenize(b"1234567890"), Some(vec![Token::Decimal]));
    assert_eq!(tokenize(b"00"), Some(vec![Token::Octal]));
}

#[test]
fn a_literal_ends_where_its_digits_end() {
    assert_eq!(tokenize(b"09"), Some(vec![Token::Decimal, Token::Decimal]));
    assert_eq!(tokenize(b"078"), Some(vec![Token::Octal, Token::Decimal]));
    assert_eq!(tokenize(b"0x"), Some(vec![Token::Decimal, Token::Ident]));
    assert_eq!(tokenize(b"0xg"), Some(vec![Token::Decimal, Token::Ident]));
    assert_eq!(tokenize(b"0x1g"), Some(vec![Token::Hexadecimal, Token::Ident]));
    assert_eq!(tokenize(b"12ab"), Some(vec![Token::Decimal, Token::Ident]));
}

#[test]
fn keywords_and_identifiers() {
    assert_eq!(
        tokenize(b"const int void if else while break continue return"),
        Some(vec![
            Token::Const,
            Token::Int,
            Token::Void,
            Token::If,
            Token::Else,
            Token::While,
            Token::Break,
            Token::Continue,
            Token::Return,
        ])
    );
    assert_eq!(
        tokenize(b"constant integer iff _if If int1 x_9 _"),
        Some(vec![Token::Ident; 8])
    );
}

#[test]
fn marks_and_operators() {
    assert_eq!(
        tokenize(b"()[]{},;=+-!*/%<><=>===!=&&||"),
        Some(vec![
            Token::LParen,
            Token::RParen,
            Token::LBracket,
            Token::RBracket,
            Token::LBrace,
            Token::RBrace,
            Token::Comma,
            Token::Semicolon,
            Token::Assign,
            Token::Plus,
            Token::Minus,
            Token::Not,
            Token::Star,
            Token::Slash,
            Token::Percent,
            Token::Lt,
            Token::Gt,
            Token::Le,
            Token::Ge,
            Token::EqEq,
            Token::NotEq,
            Token::AndAnd,
            Token::OrOr,
        ])
    );
    assert_eq!(tokenize(b"= ="), Some(vec![Token::Assign, Token::Assign]));
    assert_eq!(tokenize(b"==="), Some(vec![Token::EqEq, Token::Assign]));
    assert_eq!(tokenize(b"!!="), Some(vec![Token::Not, Token::NotEq]));
}

#[test]
fn white_space_parts_tokens() {
    assert_eq!(tokenize(b""), Some(vec![]));
    assert_eq!(tokenize(b" \t\r\n\x0b\x0c"), Some(vec![]));
    assert_eq!(tokenize(b"a\nb"), Some(vec![Token::Ident, Token::Ident]));
    assert_eq!(tokenize(b"  a  "), Some(vec![Token::Ident]));
}

#[test]
fn bytes_that_start_no_token() {
    assert_eq!(tokenize(b"a & b"), None);
    assert_eq!(tokenize(b"a | b"), None);
    assert_eq!(tokenize(b"a # b"), None);
    assert_eq!(tokenize(b"a . b"), None);
    assert_eq!(tokenize("\u{e9}".as_bytes()), None);
    assert_eq!(tokenize(b"\x00"), None);
    assert_eq!(tokenize(b"a \"b\""), None);
}
