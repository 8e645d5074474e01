//! The failures that end a compilation.

use crate::text::{decimal, push_char, push_decimal};
use crate::token::Tag;
use vstd::prelude::*;

verus! {

/// Why the generator gave up. Every failure ends the compilation of the
/// module; no output is produced.
#[derive(Debug, PartialEq, Clone)]
pub enum CompileError {
    /// A variable was used that the current symbol table does not hold.
    UndefinedVariable(String),
    /// A class was named that is not registered.
    UnknownClass(String),
    /// A field was named that the class of the object does not have.
    UnknownField(String),
    /// A variable was indexed that is not bound to an array.
    NotAnArray(String),
    /// An array was used as a value without an index.
    ArrayWithoutIndex(String),
    /// An array literal stands elsewhere than as the initial value of a
    /// declared variable.
    InvalidArrayLiteralContext,
    /// An arithmetic operator was applied to an operand that is no integer.
    UnsupportedOperandType,
    /// A binary expression holds a token that is no binary operator.
    UnsupportedOperator,
    /// A value was printed whose type has no printed form.
    UnprintableType,
    /// A field was read from a value that is no class instance.
    NotAnInstance,
    /// A field was written on a value that is no class instance.
    InvalidAssignmentTarget,
    /// A method was called on a value that is no class instance.
    InvalidCallTarget,
    /// The built-in string print was called without an argument.
    MissingArgument,
    /// A function outside any class has a parameter named `this`.
    ReceiverOutsideClass,
}

/// The mathematical form of a `CompileError`.
pub enum Failure {
    UndefinedVariable(Seq<char>),
    UnknownClass(Seq<char>),
    UnknownField(Seq<char>),
    NotAnArray(Seq<char>),
    ArrayWithoutIndex(Seq<char>),
    InvalidArrayLiteralContext,
    UnsupportedOperandType,
    UnsupportedOperator,
    UnprintableType,
    NotAnInstance,
    InvalidAssignmentTarget,
    InvalidCallTarget,
    MissingArgument,
    ReceiverOutsideClass,
}

impl View for CompileError {
    type V = Failure;

    open spec fn view(&self) -> Failure {
        match self {
            CompileError::UndefinedVariable(s) => Failure::UndefinedVariable(s@),
            CompileError::UnknownClass(s) => Failure::UnknownClass(s@),
            CompileError::UnknownField(s) => Failure::UnknownField(s@),
            CompileError::NotAnArray(s) => Failure::NotAnArray(s@),
            CompileError::ArrayWithoutIndex(s) => Failure::ArrayWithoutIndex(s@),
            CompileError::InvalidArrayLiteralContext => Failure::InvalidArrayLiteralContext,
            CompileError::UnsupportedOperandType => Failure::UnsupportedOperandType,
            CompileError::UnsupportedOperator => Failure::UnsupportedOperator,
            CompileError::UnprintableType => Failure::UnprintableType,
            CompileError::NotAnInstance => Failure::NotAnInstance,
            CompileError::InvalidAssignmentTarget => Failure::InvalidAssignmentTarget,
            CompileError::InvalidCallTarget => Failure::InvalidCallTarget,
            CompileError::MissingArgument => Failure::MissingArgument,
            CompileError::ReceiverOutsideClass => Failure::ReceiverOutsideClass,
        }
    }
}

/// Why the lexer gave up.
#[derive(Debug, PartialEq, Eq, Clone, Copy)]
pub enum LexError {
    /// A `!` is not followed by `=`; the line is that of the `!`.
    ExpectedEquals(usize),
    /// A string literal is not closed before the input ends.
    UnterminatedString,
    /// A character that starts no token.
    UnknownCharacter(char),
    /// A number that does not fit the 32-bit integers of the language.
    NumberTooLarge,
}

/// What the parser found wrong.
#[derive(Debug, PartialEq, Eq, Clone, Copy)]
pub enum ParseErrorKind {
    /// A token with the given tag was expected.
    Expected(Tag),
    /// The name of a class was expected.
    ExpectedClassName,
    /// The name of a field was expected.
    ExpectedFieldName,
    /// The name of a function was expected.
    ExpectedFunctionName,
    /// The name of a variable was expected.
    ExpectedVariableName,
    /// A token that starts no expression.
    UnexpectedToken,
    /// A call of something that is neither a name nor a member of an object.
    InvalidCallTarget,
    /// An index on something that is no variable.
    InvalidIndexTarget,
    /// An assignment to something that is neither a variable nor a field.
    InvalidAssignmentTarget,
    /// A member of a class that is neither a field nor a method.
    InvalidClassMember,
    /// An import that names no path.
    InvalidImport,
    /// An import of a path for which no module was supplied.
    UnresolvedImport,
}

/// Why the parser gave up, and the line of the token at which it did.
#[derive(Debug, PartialEq, Eq, Clone, Copy)]
pub struct ParseError {
    pub kind: ParseErrorKind,
    pub line: usize,
}

/// The message for a failure of the generator.
pub open spec fn failure_text(f: Failure) -> Seq<char> {
    match f {
        Failure::UndefinedVariable(name) => "Undefined variable: "@ + name,
        Failure::UnknownClass(name) => "Unknown class: "@ + name,
        Failure::UnknownField(name) => "Unknown field: "@ + name,
        Failure::NotAnArray(name) => "Not an array: "@ + name,
        Failure::ArrayWithoutIndex(name) => "An array can only be used with an index: "@ + name,
        Failure::InvalidArrayLiteralContext => "An array literal can only initialise a declared variable"@,
        Failure::UnsupportedOperandType => "An arithmetic operator needs integer operands"@,
        Failure::UnsupportedOperator => "A binary expression holds no operator"@,
        Failure::UnprintableType => "A value of this type cannot be printed"@,
        Failure::NotAnInstance => "A field is read from a value that is no object"@,
        Failure::InvalidAssignmentTarget => "A field is written on a value that is no object"@,
        Failure::InvalidCallTarget => "A method is called on a value that is no object"@,
        Failure::MissingArgument => "The built-in print needs an argument"@,
        Failure::ReceiverOutsideClass => "A parameter named 'this' stands outside any class"@,
    }
}

impl CompileError {
    /// A message for this failure: its kind and, where there is one, the
    /// name it is about.
    pub fn message(&self) -> (r: String)
        ensures
            r@ == failure_text(self@),
    {
        match self {
            CompileError::UndefinedVariable(name) => String::from_str("Undefined variable: ").concat(name.as_str()),
            CompileError::UnknownClass(name) => String::from_str("Unknown class: ").concat(name.as_str()),
            CompileError::UnknownField(name) => String::from_str("Unknown field: ").concat(name.as_str()),
            CompileError::NotAnArray(name) => String::from_str("Not an array: ").concat(name.as_str()),
            CompileError::ArrayWithoutIndex(name) => String::from_str("An array can only be used with an index: ").concat(name.as_str()),
            CompileError::InvalidArrayLiteralContext => String::from_str("An array literal can only initialise a declared variable"),
            CompileError::UnsupportedOperandType => String::from_str("An arithmetic operator needs integer operands"),
            CompileError::UnsupportedOperator => String::from_str("A binary expression holds no operator"),
            CompileError::UnprintableType => String::from_str("A value of this type cannot be printed"),
            CompileError::NotAnInstance => String::from_str("A field is read from a value that is no object"),
            CompileError::InvalidAssignmentTarget => String::from_str("A field is written on a value that is no object"),
            CompileError::InvalidCallTarget => String::from_str("A method is called on a value that is no object"),
            CompileError::MissingArgument => String::from_str("The built-in print needs an argument"),
            CompileError::ReceiverOutsideClass => String::from_str("A parameter named 'this' stands outside any class"),
        }
    }
}

/// The message for a failure of the lexer.
pub open spec fn lex_error_text(e: LexError) -> Seq<char> {
    match e {
        LexError::ExpectedEquals(line) => "Line "@ + decimal(line as nat) + ": expected '=' after '!'"@,
        LexError::UnterminatedString => "A string literal is not closed"@,
        LexError::UnknownCharacter(c) => "Unknown character: "@.push(c),
        LexError::NumberTooLarge => "A number is too large"@,
    }
}

impl LexError {
    /// A message for this failure.
    pub fn message(&self) -> (r: String)
        ensures
            r@ == lex_error_text(*self),
    {
        match self {
            LexError::ExpectedEquals(line) => {
                let mut r = String::from_str("Line ");
                push_decimal(&mut r, *line as u128);
                r.concat(": expected '=' after '!'")
            },
            LexError::UnterminatedString => String::from_str("A string literal is not closed"),
            LexError::UnknownCharacter(c) => {
                let mut r = String::from_str("Unknown character: ");
                push_char(&mut r, *c);
                r
            },
            LexError::NumberTooLarge => String::from_str("A number is too large"),
        }
    }
}

/// How a kind of token is named in a message.
pub open spec fn tag_text(t: Tag) -> Seq<char> {
    match t {
        Tag::Var => "var"@,
        Tag::Print => "print"@,
        Tag::If => "if"@,
        Tag::Else => "else"@,
        Tag::While => "while"@,
        Tag::For => "for"@,
        Tag::Foreach => "foreach"@,
        Tag::In => "in"@,
        Tag::Func => "func"@,
        Tag::Return => "return"@,
        Tag::Import => "import"@,
        Tag::From => "from"@,
        Tag::Class => "class"@,
        Tag::New => "new"@,
        Tag::Id => "a name"@,
        Tag::Number => "a number"@,
        Tag::String => "a string"@,
        Tag::Assign => "="@,
        Tag::Plus => "+"@,
        Tag::Minus => "-"@,
        Tag::Mul => "*"@,
        Tag::Div => "/"@,
        Tag::LParen => "("@,
        Tag::RParen => ")"@,
        Tag::LBrace => "{"@,
        Tag::RBrace => "}"@,
        Tag::LBracket => "["@,
        Tag::RBracket => "]"@,
        Tag::Comma => ","@,
        Tag::Semicolon => ";"@,
        Tag::Dot => "."@,
        Tag::Eq => "=="@,
        Tag::Neq => "!="@,
        Tag::Lt => "<"@,
        Tag::Gt => ">"@,
        Tag::Lte => "<="@,
        Tag::Gte => ">="@,
        Tag::EOF => "the end of the input"@,
    }
}

/// How a kind of token is named in a message.
pub fn tag_name(t: Tag) -> (r: &'static str)
    ensures
        r@ == tag_text(t),
{
    match t {
        Tag::Var => "var",
        Tag::Print => "print",
        Tag::If => "if",
        Tag::Else => "else",
        Tag::While => "while",
        Tag::For => "for",
        Tag::Foreach => "foreach",
        Tag::In => "in",
        Tag::Func => "func",
        Tag::Return => "return",
        Tag::Import => "import",
        Tag::From => "from",
        Tag::Class => "class",
        Tag::New => "new",
        Tag::Id => "a name",
        Tag::Number => "a number",
        Tag::String => "a string",
        Tag::Assign => "=",
        Tag::Plus => "+",
        Tag::Minus => "-",
        Tag::Mul => "*",
        Tag::Div => "/",
        Tag::LParen => "(",
        Tag::RParen => ")",
        Tag::LBrace => "{",
        Tag::RBrace => "}",
        Tag::LBracket => "[",
        Tag::RBracket => "]",
        Tag::Comma => ",",
        Tag::Semicolon => ";",
        Tag::Dot => ".",
        Tag::Eq => "==",
        Tag::Neq => "!=",
        Tag::Lt => "<",
        Tag::Gt => ">",
        Tag::Lte => "<=",
        Tag::Gte => ">=",
        Tag::EOF => "the end of the input",
    }
}

/// The message for what the parser found wrong.
pub open spec fn parse_kind_text(k: ParseErrorKind) -> Seq<char> {
    match k {
        ParseErrorKind::Expected(t) => "expected "@ + tag_text(t),
        ParseErrorKind::ExpectedClassName => "expected the name of a class"@,
        ParseErrorKind::ExpectedFieldName => "expected the name of a field"@,
        ParseErrorKind::ExpectedFunctionName => "expected the name of a function"@,
        ParseErrorKind::ExpectedVariableName => "expected the name of a variable"@,
        ParseErrorKind::UnexpectedToken => "unexpected token"@,
        ParseErrorKind::InvalidCallTarget => "only a name or a member of an object can be called"@,
        ParseErrorKind::InvalidIndexTarget => "only a variable can be indexed"@,
        ParseErrorKind::InvalidAssignmentTarget => "only a variable or a field can be assigned"@,
        ParseErrorKind::InvalidClassMember => "a class holds only fields and methods"@,
        ParseErrorKind::InvalidImport => "an import names a path in quotes"@,
        ParseErrorKind::UnresolvedImport => "the imported module is not at hand"@,
    }
}

/// The message for what the parser found wrong.
pub fn parse_kind_message(k: ParseErrorKind) -> (r: String)
    ensures
        r@ == parse_kind_text(k),
{
    match k {
        ParseErrorKind::Expected(t) => String::from_str("expected ").concat(tag_name(t)),
        ParseErrorKind::ExpectedClassName => String::from_str("expected the name of a class"),
        ParseErrorKind::ExpectedFieldName => String::from_str("expected the name of a field"),
        ParseErrorKind::ExpectedFunctionName => String::from_str("expected the name of a function"),
        ParseErrorKind::ExpectedVariableName => String::from_str("expected the name of a variable"),
        ParseErrorKind::UnexpectedToken => String::from_str("unexpected token"),
        ParseErrorKind::InvalidCallTarget => String::from_str("only a name or a member of an object can be called"),
        ParseErrorKind::InvalidIndexTarget => String::from_str("only a variable can be indexed"),
        ParseErrorKind::InvalidAssignmentTarget => String::from_str("only a variable or a field can be assigned"),
        ParseErrorKind::InvalidClassMember => String::from_str("a class holds only fields and methods"),
        ParseErrorKind::InvalidImport => String::from_str("an import names a path in quotes"),
        ParseErrorKind::UnresolvedImport => String::from_str("the imported module is not at hand"),
    }
}

/// The message for a failure of the parser.
pub open spec fn parse_error_text(e: ParseError) -> Seq<char> {
    "Line "@ + decimal(e.line as nat) + ": "@ + parse_kind_text(e.kind)
}

impl ParseError {
    /// A message for this failure: the line and what was found wrong.
    pub fn message(&self) -> (r: String)
        ensures
            r@ == parse_error_text(*self),
    {
        let mut r = String::from_str("Line ");
        push_decimal(&mut r, self.line as u128);
        r.concat(": ").concat(parse_kind_message(self.kind).as_str())
    }
}

} // verus!
