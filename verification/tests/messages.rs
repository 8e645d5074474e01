use aura_lang::error::{parse_kind_message, tag_name, LexError, ParseError, ParseErrorKind};
use aura_lang::token::{Tag, TokenType};

#[test]
fn lexer_failures_have_messages() {
    assert_eq!(LexError::ExpectedEquals(12).message(), "Line 12: expected '=' after '!'");
    assert_eq!(LexError::UnterminatedString.message(), "A string literal is not closed");
    assert_eq!(LexError::UnknownCharacter('#').message(), "Unknown character: #");
    assert_eq!(LexError::NumberTooLarge.message(), "A number is too large");
}

#[test]
fn parser_failures_have_messages() {
    assert_eq!(
        ParseError { kind: ParseErrorKind::Expected(Tag::Semicolon), line: 3 }.message(),
        "Line 3: expected ;"
    );
    assert_eq!(
        ParseError { kind: ParseErrorKind::UnexpectedToken, line: 100 }.message(),
        "Line 100: unexpected token"
    );
    assert_eq!(
        parse_kind_message(ParseErrorKind::InvalidIndexTarget),
        "only a variable can be indexed"
    );
}

#[test]
fn tokens_have_names_and_tags() {
    assert_eq!(tag_name(Tag::LBrace), "{");
    assert_eq!(tag_name(Tag::Gte), ">=");
    assert_eq!(tag_name(Tag::While), "while");
    assert_eq!(tag_name(Tag::EOF), "the end of the input");
    assert_eq!(TokenType::Id("x".to_string()).tag(), Tag::Id);
    assert_eq!(TokenType::Number(1).tag(), Tag::Number);
    assert_eq!(TokenType::EOF.tag(), Tag::EOF);
    assert_eq!(TokenType::String("s".to_string()).duplicate(), TokenType::String("s".to_string()));
}
