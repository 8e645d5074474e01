//! The tokens that the lexer produces and the parser consumes.

use vstd::prelude::*;

verus! {

/// The kind of a token: a keyword, a literal, an operator or a punctuation
/// mark, or the marker that ends the input.
#[derive(Debug, PartialEq, Clone)]
pub enum TokenType {
    Var,
    Print,
    If,
    Else,
    While,
    For,
    Foreach,
    In,
    Func,
    Return,
    Import,
    From,
    Class,
    New,
    Id(String),
    Number(i32),
    String(String),
    Assign,
    Plus,
    Minus,
    Mul,
    Div,
    LParen,
    RParen,
    LBrace,
    RBrace,
    LBracket,
    RBracket,
    Comma,
    Semicolon,
    Dot,
    Eq,
    Neq,
    Lt,
    Gt,
    Lte,
    Gte,
    EOF,
}

/// A token with the line of the source text on which it ends.
#[derive(Debug, Clone)]
pub struct Token {
    pub kind: TokenType,
    pub line: usize,
}

/// The mathematical form of a `TokenType`.
pub enum TokenKind {
    Var,
    Print,
    If,
    Else,
    While,
    For,
    Foreach,
    In,
    Func,
    Return,
    Import,
    From,
    Class,
    New,
    Id(Seq<char>),
    Number(i32),
    String(Seq<char>),
    Assign,
    Plus,
    Minus,
    Mul,
    Div,
    LParen,
    RParen,
    LBrace,
    RBrace,
    LBracket,
    RBracket,
    Comma,
    Semicolon,
    Dot,
    Eq,
    Neq,
    Lt,
    Gt,
    Lte,
    Gte,
    EOF,
}

impl View for TokenType {
    type V = TokenKind;

    open spec fn view(&self) -> TokenKind {
        match self {
            TokenType::Var => TokenKind::Var,
            TokenType::Print => TokenKind::Print,
            TokenType::If => TokenKind::If,
            TokenType::Else => TokenKind::Else,
            TokenType::While => TokenKind::While,
            TokenType::For => TokenKind::For,
            TokenType::Foreach => TokenKind::Foreach,
            TokenType::In => TokenKind::In,
            TokenType::Func => TokenKind::Func,
            TokenType::Return => TokenKind::Return,
            TokenType::Import => TokenKind::Import,
            TokenType::From => TokenKind::From,
            TokenType::Class => TokenKind::Class,
            TokenType::New => TokenKind::New,
            TokenType::Id(s) => TokenKind::Id(s@),
            TokenType::Number(n) => TokenKind::Number(*n),
            TokenType::String(s) => TokenKind::String(s@),
            TokenType::Assign => TokenKind::Assign,
            TokenType::Plus => TokenKind::Plus,
            TokenType::Minus => TokenKind::Minus,
            TokenType::Mul => TokenKind::Mul,
            TokenType::Div => TokenKind::Div,
            TokenType::LParen => TokenKind::LParen,
            TokenType::RParen => TokenKind::RParen,
            TokenType::LBrace => TokenKind::LBrace,
            TokenType::RBrace => TokenKind::RBrace,
            TokenType::LBracket => TokenKind::LBracket,
            TokenType::RBracket => TokenKind::RBracket,
            TokenType::Comma => TokenKind::Comma,
            TokenType::Semicolon => TokenKind::Semicolon,
            TokenType::Dot => TokenKind::Dot,
            TokenType::Eq => TokenKind::Eq,
            TokenType::Neq => TokenKind::Neq,
            TokenType::Lt => TokenKind::Lt,
            TokenType::Gt => TokenKind::Gt,
            TokenType::Lte => TokenKind::Lte,
            TokenType::Gte => TokenKind::Gte,
            TokenType::EOF => TokenKind::EOF,
        }
    }
}

impl TokenType {
    /// A copy of this kind.
    pub fn duplicate(&self) -> (r: TokenType)
        ensures
            r == *self,
    {
        match self {
            TokenType::Var => TokenType::Var,
            TokenType::Print => TokenType::Print,
            TokenType::If => TokenType::If,
            TokenType::Else => TokenType::Else,
            TokenType::While => TokenType::While,
            TokenType::For => TokenType::For,
            TokenType::Foreach => TokenType::Foreach,
            TokenType::In => TokenType::In,
            TokenType::Func => TokenType::Func,
            TokenType::Return => TokenType::Return,
            TokenType::Import => TokenType::Import,
            TokenType::From => TokenType::From,
            TokenType::Class => TokenType::Class,
            TokenType::New => TokenType::New,
            TokenType::Id(s) => TokenType::Id(s.clone()),
            TokenType::Number(n) => TokenType::Number(*n),
            TokenType::String(s) => TokenType::String(s.clone()),
            TokenType::Assign => TokenType::Assign,
            TokenType::Plus => TokenType::Plus,
            TokenType::Minus => TokenType::Minus,
            TokenType::Mul => TokenType::Mul,
            TokenType::Div => TokenType::Div,
            TokenType::LParen => TokenType::LParen,
            TokenType::RParen => TokenType::RParen,
            TokenType::LBrace => TokenType::LBrace,
            TokenType::RBrace => TokenType::RBrace,
            TokenType::LBracket => TokenType::LBracket,
            TokenType::RBracket => TokenType::RBracket,
            TokenType::Comma => TokenType::Comma,
            TokenType::Semicolon => TokenType::Semicolon,
            TokenType::Dot => TokenType::Dot,
            TokenType::Eq => TokenType::Eq,
            TokenType::Neq => TokenType::Neq,
            TokenType::Lt => TokenType::Lt,
            TokenType::Gt => TokenType::Gt,
            TokenType::Lte => TokenType::Lte,
            TokenType::Gte => TokenType::Gte,
            TokenType::EOF => TokenType::EOF,
        }
    }
}

/// The mathematical form of a `Token`.
pub struct TokenModel {
    pub kind: TokenKind,
    pub line: nat,
}

impl View for Token {
    type V = TokenModel;

    open spec fn view(&self) -> TokenModel {
        TokenModel { kind: self.kind@, line: self.line as nat }
    }
}

/// The views of a sequence of tokens.
pub open spec fn token_views(tokens: Seq<Token>) -> Seq<TokenModel> {
    Seq::new(tokens.len(), |i: int| tokens[i]@)
}

/// The kind of a token without what it holds.
#[derive(Debug, PartialEq, Eq, Clone, Copy, Structural)]
pub enum Tag {
    Var,
    Print,
    If,
    Else,
    While,
    For,
    Foreach,
    In,
    Func,
    Return,
    Import,
    From,
    Class,
    New,
    Id,
    Number,
    String,
    Assign,
    Plus,
    Minus,
    Mul,
    Div,
    LParen,
    RParen,
    LBrace,
    RBrace,
    LBracket,
    RBracket,
    Comma,
    Semicolon,
    Dot,
    Eq,
    Neq,
    Lt,
    Gt,
    Lte,
    Gte,
    EOF,
}

/// The tag of a kind of token.
pub open spec fn tag(kind: TokenKind) -> Tag {
    match kind {
        TokenKind::Var => Tag::Var,
        TokenKind::Print => Tag::Print,
        TokenKind::If => Tag::If,
        TokenKind::Else => Tag::Else,
        TokenKind::While => Tag::While,
        TokenKind::For => Tag::For,
        TokenKind::Foreach => Tag::Foreach,
        TokenKind::In => Tag::In,
        TokenKind::Func => Tag::Func,
        TokenKind::Return => Tag::Return,
        TokenKind::Import => Tag::Import,
        TokenKind::From => Tag::From,
        TokenKind::Class => Tag::Class,
        TokenKind::New => Tag::New,
        TokenKind::Id(_) => Tag::Id,
        TokenKind::Number(_) => Tag::Number,
        TokenKind::String(_) => Tag::String,
        TokenKind::Assign => Tag::Assign,
        TokenKind::Plus => Tag::Plus,
        TokenKind::Minus => Tag::Minus,
        TokenKind::Mul => Tag::Mul,
        TokenKind::Div => Tag::Div,
        TokenKind::LParen => Tag::LParen,
        TokenKind::RParen => Tag::RParen,
        TokenKind::LBrace => Tag::LBrace,
        TokenKind::RBrace => Tag::RBrace,
        TokenKind::LBracket => Tag::LBracket,
        TokenKind::RBracket => Tag::RBracket,
        TokenKind::Comma => Tag::Comma,
        TokenKind::Semicolon => Tag::Semicolon,
        TokenKind::Dot => Tag::Dot,
        TokenKind::Eq => Tag::Eq,
        TokenKind::Neq => Tag::Neq,
        TokenKind::Lt => Tag::Lt,
        TokenKind::Gt => Tag::Gt,
        TokenKind::Lte => Tag::Lte,
        TokenKind::Gte => Tag::Gte,
        TokenKind::EOF => Tag::EOF,
    }
}

impl TokenType {
    /// The tag of this kind.
    pub fn tag(&self) -> (r: Tag)
        ensures
            r == tag(self@),
    {
        match self {
            TokenType::Var => Tag::Var,
            TokenType::Print => Tag::Print,
            TokenType::If => Tag::If,
            TokenType::Else => Tag::Else,
            TokenType::While => Tag::While,
            TokenType::For => Tag::For,
            TokenType::Foreach => Tag::Foreach,
            TokenType::In => Tag::In,
            TokenType::Func => Tag::Func,
            TokenType::Return => Tag::Return,
            TokenType::Import => Tag::Import,
            TokenType::From => Tag::From,
            TokenType::Class => Tag::Class,
            TokenType::New => Tag::New,
            TokenType::Id(_) => Tag::Id,
            TokenType::Number(_) => Tag::Number,
            TokenType::String(_) => Tag::String,
            TokenType::Assign => Tag::Assign,
            TokenType::Plus => Tag::Plus,
            TokenType::Minus => Tag::Minus,
            TokenType::Mul => Tag::Mul,
            TokenType::Div => Tag::Div,
            TokenType::LParen => Tag::LParen,
            TokenType::RParen => Tag::RParen,
            TokenType::LBrace => Tag::LBrace,
            TokenType::RBrace => Tag::RBrace,
            TokenType::LBracket => Tag::LBracket,
            TokenType::RBracket => Tag::RBracket,
            TokenType::Comma => Tag::Comma,
            TokenType::Semicolon => Tag::Semicolon,
            TokenType::Dot => Tag::Dot,
            TokenType::Eq => Tag::Eq,
            TokenType::Neq => Tag::Neq,
            TokenType::Lt => Tag::Lt,
            TokenType::Gt => Tag::Gt,
            TokenType::Lte => Tag::Lte,
            TokenType::Gte => Tag::Gte,
            TokenType::EOF => Tag::EOF,
        }
    }
}

} // verus!
