//! A single-pass compiler for a small imperative language with integers,
//! strings, arrays, functions and classes.
//!
//! The `Lexer` turns source text into tokens, the `Parser` turns tokens into
//! statements, and the `Compiler` lowers statements directly into the text
//! of a module for a native toolchain. Each stage is specified by a
//! mathematical model and proved to compute what the model says:
//! `lexer::lex` for the lexer, `grammar::parse_program` for the parser, and
//! `model::lower_program` with `assemble::module_text` for the generator.
//! What holds of every compilation is proved in `laws`.

pub mod assemble;
pub mod ast;
pub mod compiler;
pub mod counter;
pub mod env;
pub mod error;
pub mod expr;
pub mod grammar;
pub mod ir;
pub mod laws;
pub mod lexer;
pub mod model;
pub mod parser;
pub mod stmt;
pub mod text;
pub mod token;
pub mod types;

pub use ast::{Expr, Stmt};
pub use compiler::Compiler;
pub use error::{CompileError, LexError, ParseError};
pub use lexer::Lexer;
pub use parser::Parser;
pub use token::{Token, TokenType};
