use aura_lang::error::LexError;
use aura_lang::lexer::{classify, Lexer, Symbol};
use aura_lang::token::{Token, TokenType};

fn kinds(source: &str) -> Vec<TokenType> {
    Lexer::new(source.to_string())
        .tokenize()
        .unwrap()
        .into_iter()
        .map(|t| t.kind)
        .collect()
}

fn lines(source: &str) -> Vec<usize> {
    Lexer::new(source.to_string())
        .tokenize()
        .unwrap()
        .into_iter()
        .map(|t| t.line)
        .collect()
}

fn id(name: &str) -> TokenType {
    TokenType::Id(name.to_string())
}

#[test]
fn empty_input_is_only_the_end_marker() {
    let tokens: Vec<Token> = Lexer::new(String::new()).tokenize().unwrap();
    assert_eq!(tokens.len(), 1);
    assert_eq!(tokens[0].kind, TokenType::EOF);
    assert_eq!(tokens[0].line, 1);
}

#[test]
fn declaration_is_split_into_tokens() {
    assert_eq!(
        kinds("var x = 5;"),
        vec![
            TokenType::Var,
            id("x"),
            TokenType::Assign,
            TokenType::Number(5),
            TokenType::Semicolon,
            TokenType::EOF
        ]
    );
}

#[test]
fn every_keyword_is_recognised() {
    assert_eq!(
        kinds("var print if else while for foreach in func return import from class new"),
        vec![
            TokenType::Var,
            TokenType::Print,
            TokenType::If,
            TokenType::Else,
            TokenType::While,
            TokenType::For,
            TokenType::Foreach,
            TokenType::In,
            TokenType::Func,
            TokenType::Return,
            TokenType::Import,
            TokenType::From,
            TokenType::Class,
            TokenType::New,
            TokenType::EOF
        ]
    );
}

#[test]
fn a_keyword_inside_a_name_is_a_name() {
    assert_eq!(kinds("variable _if new2"), vec![id("variable"), id("_if"), id("new2"), TokenType::EOF]);
}

#[test]
fn operators_of_one_and_two_characters() {
    assert_eq!(
        kinds("= == != < <= > >= + - * / ( ) { } [ ] , ; ."),
        vec![
            TokenType::Assign,
            TokenType::Eq,
            TokenType::Neq,
            TokenType::Lt,
            TokenType::Lte,
            TokenType::Gt,
            TokenType::Gte,
            TokenType::Plus,
            TokenType::Minus,
            TokenType::Mul,
            TokenType::Div,
            TokenType::LParen,
            TokenType::RParen,
            TokenType::LBrace,
            TokenType::RBrace,
            TokenType::LBracket,
            TokenType::RBracket,
            TokenType::Comma,
            TokenType::Semicolon,
            TokenType::Dot,
            TokenType::EOF
        ]
    );
}

#[test]
fn adjacent_operators_need_no_space() {
    assert_eq!(
        kinds("a<=b==c"),
        vec![id("a"), TokenType::Lte, id("b"), TokenType::Eq, id("c"), TokenType::EOF]
    );
}

#[test]
fn string_literal_keeps_its_content() {
    assert_eq!(
        kinds("print(\"hi there\");"),
        vec![
            TokenType::Print,
            TokenType::LParen,
            TokenType::String("hi there".to_string()),
            TokenType::RParen,
            TokenType::Semicolon,
            TokenType::EOF
        ]
    );
}

#[test]
fn empty_string_literal() {
    assert_eq!(kinds("\"\""), vec![TokenType::String(String::new()), TokenType::EOF]);
}

#[test]
fn comments_and_white_space_are_skipped() {
    assert_eq!(
        kinds("// first\n  x // second\n\t/ y //"),
        vec![id("x"), TokenType::Div, id("y"), TokenType::EOF]
    );
}

#[test]
fn unicode_white_space_is_skipped_and_unicode_letters_continue_a_name() {
    assert_eq!(kinds("a\u{00a0}b\u{3000}c"), vec![id("a"), id("b"), id("c"), TokenType::EOF]);
    assert_eq!(kinds("x\u{e9}\u{0663}"), vec![id("x\u{e9}\u{0663}"), TokenType::EOF]);
}

#[test]
fn tokens_carry_the_line_on_which_they_end() {
    assert_eq!(lines("a\nb\n\nc"), vec![1, 2, 4, 4]);
    assert_eq!(lines("\"x\ny\" z"), vec![2, 2, 2]);
    assert_eq!(lines("a // note\n"), vec![1, 2]);
}

#[test]
fn largest_number_fits_and_the_next_does_not() {
    assert_eq!(kinds("2147483647"), vec![TokenType::Number(2147483647), TokenType::EOF]);
    assert_eq!(kinds("007"), vec![TokenType::Number(7), TokenType::EOF]);
    assert_eq!(
        Lexer::new("2147483648".to_string()).tokenize().unwrap_err(),
        LexError::NumberTooLarge
    );
    assert_eq!(
        Lexer::new("99999999999999999999999999".to_string()).tokenize().unwrap_err(),
        LexError::NumberTooLarge
    );
}

#[test]
fn a_number_ends_where_the_digits_end() {
    assert_eq!(kinds("12ab"), vec![TokenType::Number(12), id("ab"), TokenType::EOF]);
}

#[test]
fn bang_needs_equals() {
    assert_eq!(
        Lexer::new("a\n! b".to_string()).tokenize().unwrap_err(),
        LexError::ExpectedEquals(2)
    );
}

#[test]
fn string_must_be_closed() {
    assert_eq!(
        Lexer::new("\"abc".to_string()).tokenize().unwrap_err(),
        LexError::UnterminatedString
    );
}

#[test]
fn unknown_character_is_reported() {
    assert_eq!(
        Lexer::new("a # b".to_string()).tokenize().unwrap_err(),
        LexError::UnknownCharacter('#')
    );
    assert_eq!(
        Lexer::new("\u{e9}".to_string()).tokenize().unwrap_err(),
        LexError::UnknownCharacter('\u{e9}')
    );
}

#[test]
fn classification_follows_the_unicode_classes() {
    assert_eq!(
        classify("a 1\u{2003}_"),
        vec![
            Symbol { ch: 'a', blank: false, letter: true },
            Symbol { ch: ' ', blank: true, letter: false },
            Symbol { ch: '1', blank: false, letter: true },
            Symbol { ch: '\u{2003}', blank: true, letter: false },
            Symbol { ch: '_', blank: false, letter: false },
        ]
    );
}

#[test]
fn lexer_over_given_symbols_goes_by_their_classes() {
    let symbols = vec![
        Symbol { ch: 'a', blank: false, letter: true },
        Symbol { ch: '#', blank: false, letter: true },
        Symbol { ch: 'x', blank: true, letter: false },
        Symbol { ch: 'b', blank: false, letter: false },
        Symbol { ch: 'c', blank: false, letter: false },
    ];
    let kinds: Vec<TokenType> =
        Lexer::from_symbols(symbols).tokenize().unwrap().into_iter().map(|t| t.kind).collect();
    assert_eq!(kinds, vec![id("a#"), id("b"), id("c"), TokenType::EOF]);
}

#[test]
fn tokenizing_again_gives_only_the_end_marker() {
    let mut lexer = Lexer::new("a b".to_string());
    assert_eq!(lexer.tokenize().unwrap().len(), 3);
    let again = lexer.tokenize().unwrap();
    assert_eq!(again.len(), 1);
    assert_eq!(again[0].kind, TokenType::EOF);
}
