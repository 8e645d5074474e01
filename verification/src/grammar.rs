//! The grammar of the language, as functions from a position in the token
//! sequence to what is parsed there.
//!
//! A parse that succeeds takes at least one token; its result says how many
//! it took beyond the first.

use crate::ast::{ExprModel, StmtModel};
use crate::error::{ParseError, ParseErrorKind};
use crate::text::position;
use crate::token::{tag, Tag, TokenKind, TokenModel};
use vstd::prelude::*;

verus! {

/// A module that can be imported: its path and its statements.
pub struct ModuleModel {
    pub path: Seq<char>,
    pub body: Seq<StmtModel>,
}

/// What a parser works on: the tokens, and the modules that imports refer
/// to.
pub struct Source {
    pub tokens: Seq<TokenModel>,
    pub modules: Seq<ModuleModel>,
}

/// What was parsed, and how many tokens it took beyond the first.
pub struct Parsed<T> {
    pub value: T,
    pub more: nat,
}

/// What a part of a construct gave, and how many tokens it took.
pub struct Tail<T> {
    pub value: T,
    pub taken: nat,
}

impl Source {
    /// The kind of the token at `p`; past the last token, the end marker.
    pub open spec fn kind(self, p: nat) -> TokenKind {
        if p < self.tokens.len() {
            self.tokens[p as int].kind
        } else {
            TokenKind::EOF
        }
    }

    /// The tag of the token at `p`.
    pub open spec fn tag(self, p: nat) -> Tag {
        tag(self.kind(p))
    }

    /// The line of the token at `p`; past the last token, the line of the
    /// last token.
    pub open spec fn line(self, p: nat) -> usize {
        if p < self.tokens.len() {
            self.tokens[p as int].line as usize
        } else if self.tokens.len() > 0 {
            self.tokens.last().line as usize
        } else {
            0
        }
    }

    /// The number of tokens from `p` on.
    pub open spec fn left(self, p: nat) -> nat {
        if p <= self.tokens.len() {
            (self.tokens.len() - p) as nat
        } else {
            0
        }
    }

    /// The name that the token at `p` holds, if it is an identifier.
    pub open spec fn name(self, p: nat) -> Option<Seq<char>> {
        match self.kind(p) {
            TokenKind::Id(n) => Some(n),
            _ => None,
        }
    }

    /// The failure of the given kind at the token at `p`.
    pub open spec fn fail<T>(self, p: nat, kind: ParseErrorKind) -> Result<T, ParseError> {
        Err(ParseError { kind, line: self.line(p) })
    }

    /// Nothing if the token at `p` has the tag `want`, else the failure.
    pub open spec fn expect(self, p: nat, want: Tag) -> Option<ParseError> {
        if self.tag(p) == want {
            None
        } else {
            Some(ParseError { kind: ParseErrorKind::Expected(want), line: self.line(p) })
        }
    }
}

/// The paths of a sequence of modules.
pub open spec fn module_paths(modules: Seq<ModuleModel>) -> Seq<Seq<char>> {
    Seq::new(modules.len(), |i: int| modules[i].path)
}

/// The level of a binary operator: 1 for multiplication and division, 2 for
/// addition and subtraction, 3 for comparisons; 0 for any other token.
pub open spec fn level_of(t: Tag) -> nat {
    match t {
        Tag::Mul | Tag::Div => 1,
        Tag::Plus | Tag::Minus => 2,
        Tag::Eq | Tag::Neq | Tag::Lt | Tag::Gt | Tag::Lte | Tag::Gte => 3,
        _ => 0,
    }
}

/// An atom at `p`: a literal, a name, an object construction, an array
/// literal or an expression in parentheses.
pub open spec fn parse_atom(cx: Source, p: nat) -> Result<Parsed<ExprModel>, ParseError>
    decreases cx.left(p), 0nat,
{
    match cx.kind(p) {
        TokenKind::Number(n) => Ok(Parsed { value: ExprModel::Number(n), more: 0 }),
        TokenKind::String(s) => Ok(Parsed { value: ExprModel::String(s), more: 0 }),
        TokenKind::Id(name) => Ok(Parsed { value: ExprModel::Variable(name), more: 0 }),
        TokenKind::New => match cx.name(p + 1) {
            None => cx.fail(p + 1, ParseErrorKind::ExpectedClassName),
            Some(class) => match cx.expect(p + 2, Tag::LParen) {
                Some(e) => Err(e),
                None => match cx.expect(p + 3, Tag::RParen) {
                    Some(e) => Err(e),
                    None => Ok(Parsed { value: ExprModel::New(class), more: 3 }),
                },
            },
        },
        TokenKind::LBracket => match parse_list(cx, p + 1, Tag::RBracket) {
            Err(e) => Err(e),
            Ok(l) => Ok(Parsed { value: ExprModel::ArrayLiteral(l.value), more: l.taken }),
        },
        TokenKind::LParen => match parse_level(cx, p + 1, 3) {
            Err(e) => Err(e),
            Ok(r) => match cx.expect(p + 2 + r.more, Tag::RParen) {
                Some(e) => Err(e),
                None => Ok(Parsed { value: r.value, more: r.more + 2 }),
            },
        },
        _ => cx.fail(p, ParseErrorKind::UnexpectedToken),
    }
}

/// A primary expression at `p`: an atom and what is applied to it.
pub open spec fn parse_primary(cx: Source, p: nat) -> Result<Parsed<ExprModel>, ParseError>
    decreases cx.left(p), 2nat,
{
    match parse_atom(cx, p) {
        Err(e) => Err(e),
        Ok(a) => postfix(cx, a.value, p, a.more),
    }
}

/// Whether a token with this tag applies something to the expression
/// before it: a call, an index or a member access.
pub open spec fn starts_suffix(t: Tag) -> bool {
    t == Tag::LParen || t == Tag::LBracket || t == Tag::Dot
}

/// One call, index or member access at `q`, applied to the expression `e`.
pub open spec fn suffix(cx: Source, e: ExprModel, q: nat) -> Result<Parsed<ExprModel>, ParseError>
    decreases cx.left(q), 0nat,
{
    match cx.tag(q) {
        Tag::LParen => match parse_list(cx, q + 1, Tag::RParen) {
            Err(f) => Err(f),
            Ok(l) => match e {
                ExprModel::Variable(name) => Ok(
                    Parsed { value: ExprModel::Call(name, l.value), more: l.taken },
                ),
                ExprModel::Get(object, name) => Ok(
                    Parsed { value: ExprModel::MethodCall(object, name, l.value), more: l.taken },
                ),
                _ => cx.fail(q, ParseErrorKind::InvalidCallTarget),
            },
        },
        Tag::LBracket => match parse_level(cx, q + 1, 3) {
            Err(f) => Err(f),
            Ok(i) => match cx.expect(q + 2 + i.more, Tag::RBracket) {
                Some(f) => Err(f),
                None => match e {
                    ExprModel::Variable(name) => Ok(
                        Parsed {
                            value: ExprModel::IndexAccess(name, Box::new(i.value)),
                            more: i.more + 2,
                        },
                    ),
                    _ => cx.fail(q, ParseErrorKind::InvalidIndexTarget),
                },
            },
        },
        Tag::Dot => match cx.name(q + 1) {
            None => cx.fail(q + 1, ParseErrorKind::ExpectedFieldName),
            Some(field) => Ok(Parsed { value: ExprModel::Get(Box::new(e), field), more: 1 }),
        },
        _ => cx.fail(q, ParseErrorKind::UnexpectedToken),
    }
}

/// What is applied to an expression that began at `p` and took `m` tokens
/// beyond the first: calls, indices and member accesses, as long as they
/// follow.
pub open spec fn postfix(cx: Source, e: ExprModel, p: nat, m: nat) -> Result<
    Parsed<ExprModel>,
    ParseError,
>
    decreases cx.left(p + 1 + m), 1nat,
{
    if starts_suffix(cx.tag(p + 1 + m)) {
        match suffix(cx, e, p + 1 + m) {
            Err(f) => Err(f),
            Ok(t) => postfix(cx, t.value, p, m + 1 + t.more),
        }
    } else {
        Ok(Parsed { value: e, more: m })
    }
}

/// A list of expressions from `q` on, separated by commas and closed by a
/// token with the tag `close`, which is counted among the tokens taken.
pub open spec fn parse_list(cx: Source, q: nat, close: Tag) -> Result<
    Tail<Seq<ExprModel>>,
    ParseError,
>
    decreases cx.left(q), 11nat,
{
    if cx.tag(q) == close {
        Ok(Tail { value: Seq::empty(), taken: 1 })
    } else {
        match parse_items(cx, q, 0, Seq::empty()) {
            Err(e) => Err(e),
            Ok(r) => match cx.expect(q + r.taken, close) {
                Some(e) => Err(e),
                None => Ok(Tail { value: r.value, taken: r.taken + 1 }),
            },
        }
    }
}

/// One or more expressions, separated by commas, after those in `before`,
/// which with their commas took `taken` tokens from `q` on.
pub open spec fn parse_items(cx: Source, q: nat, taken: nat, before: Seq<ExprModel>) -> Result<
    Tail<Seq<ExprModel>>,
    ParseError,
>
    decreases cx.left(q + taken), 10nat,
{
    match parse_level(cx, q + taken, 3) {
        Err(e) => Err(e),
        Ok(r) => if cx.tag(q + taken + 1 + r.more) == Tag::Comma {
            parse_items(cx, q, taken + 2 + r.more, before.push(r.value))
        } else {
            Ok(Tail { value: before.push(r.value), taken: taken + 1 + r.more })
        },
    }
}

/// An expression of the given level at `p`: operands of the level below,
/// joined from the left by operators of this level. Level 0 is the primary
/// expressions.
pub open spec fn parse_level(cx: Source, p: nat, level: nat) -> Result<
    Parsed<ExprModel>,
    ParseError,
>
    decreases cx.left(p), 2 * level + 3,
{
    if level == 0 {
        parse_primary(cx, p)
    } else {
        match parse_level(cx, p, (level - 1) as nat) {
            Err(e) => Err(e),
            Ok(r) => level_rest(cx, r.value, p, r.more, level),
        }
    }
}

/// The operators of the given level and their right operands that follow an
/// expression, which began at `p` and took `m` tokens beyond the first.
pub open spec fn level_rest(cx: Source, left: ExprModel, p: nat, m: nat, level: nat) -> Result<
    Parsed<ExprModel>,
    ParseError,
>
    decreases cx.left(p + 1 + m), 2 * level + 2,
{
    let q = p + 1 + m;
    if level > 0 && level_of(cx.tag(q)) == level {
        match parse_level(cx, q + 1, (level - 1) as nat) {
            Err(e) => Err(e),
            Ok(r) => level_rest(
                cx,
                ExprModel::Binary(Box::new(left), cx.kind(q), Box::new(r.value)),
                p,
                m + 2 + r.more,
                level,
            ),
        }
    } else {
        Ok(Parsed { value: left, more: m })
    }
}

/// An expression at `p`.
pub open spec fn parse_expr(cx: Source, p: nat) -> Result<Parsed<ExprModel>, ParseError> {
    parse_level(cx, p, 3)
}

/// How many tokens are passed over at `q`: one, or none at the end marker.
pub open spec fn step(cx: Source, q: nat) -> nat {
    if cx.tag(q) == Tag::EOF {
        0
    } else {
        1
    }
}

/// The names with the name at `q` added, if the token there is a name.
pub open spec fn with_name(cx: Source, q: nat, names: Seq<Seq<char>>) -> Seq<Seq<char>> {
    match cx.name(q) {
        Some(n) => names.push(n),
        None => names,
    }
}

/// The parameters that follow, each after a comma. `taken` tokens were
/// taken from `q` on already. A token that is no name is passed over.
pub open spec fn params_rest(cx: Source, q: nat, names: Seq<Seq<char>>, taken: nat) -> Tail<
    Seq<Seq<char>>,
>
    decreases cx.left(q + taken),
{
    if cx.tag(q + taken) == Tag::Comma {
        params_rest(
            cx,
            q,
            with_name(cx, q + taken + 1, names),
            taken + 1 + step(cx, q + taken + 1),
        )
    } else {
        Tail { value: names, taken }
    }
}

/// The parameters of a function from `q` on, up to the closing parenthesis,
/// which is not taken.
#[verifier::opaque]
pub open spec fn parse_params(cx: Source, q: nat) -> Tail<Seq<Seq<char>>> {
    if cx.tag(q) == Tag::RParen {
        Tail { value: Seq::empty(), taken: 0 }
    } else {
        params_rest(cx, q, with_name(cx, q, Seq::empty()), step(cx, q))
    }
}

/// The statement that an assignment to `target` is.
pub open spec fn assignment(cx: Source, p: nat, target: ExprModel, value: ExprModel) -> Result<
    StmtModel,
    ParseError,
> {
    match target {
        ExprModel::Variable(name) => Ok(StmtModel::Assignment(name, value)),
        ExprModel::Get(object, field) => Ok(
            StmtModel::ExprStmt(ExprModel::Assign(object, field, Box::new(value))),
        ),
        _ => cx.fail(p, ParseErrorKind::InvalidAssignmentTarget),
    }
}

/// The fields and the methods of a class.
pub struct Members {
    pub fields: Seq<Seq<char>>,
    pub methods: Seq<StmtModel>,
}

/// An import at `p`: the statements of the first module with the given
/// path, as a block.
#[verifier::opaque]
pub open spec fn parse_import(cx: Source, p: nat) -> Result<Parsed<StmtModel>, ParseError> {
    match cx.kind(p + 1) {
        TokenKind::String(path) => match cx.expect(p + 2, Tag::Semicolon) {
            Some(e) => Err(e),
            None => match position(module_paths(cx.modules), path) {
                None => cx.fail(p + 1, ParseErrorKind::UnresolvedImport),
                Some(i) => Ok(Parsed { value: StmtModel::BlockStmt(cx.modules[i].body), more: 2 }),
            },
        },
        _ => cx.fail(p + 1, ParseErrorKind::InvalidImport),
    }
}

/// A return at `p`, with a value or without.
#[verifier::opaque]
pub open spec fn parse_return(cx: Source, p: nat) -> Result<Parsed<StmtModel>, ParseError> {
    if cx.tag(p + 1) == Tag::Semicolon {
        Ok(Parsed { value: StmtModel::ReturnStmt(None), more: 1 })
    } else {
        match parse_level(cx, p + 1, 3) {
            Err(e) => Err(e),
            Ok(r) => match cx.expect(p + 2 + r.more, Tag::Semicolon) {
                Some(e) => Err(e),
                None => Ok(
                    Parsed { value: StmtModel::ReturnStmt(Some(r.value)), more: r.more + 2 },
                ),
            },
        }
    }
}

/// The declaration of a variable at `p`.
#[verifier::opaque]
pub open spec fn parse_var(cx: Source, p: nat) -> Result<Parsed<StmtModel>, ParseError> {
    match cx.name(p + 1) {
        None => cx.fail(p + 1, ParseErrorKind::ExpectedVariableName),
        Some(name) => match cx.expect(p + 2, Tag::Assign) {
            Some(e) => Err(e),
            None => match parse_level(cx, p + 3, 3) {
                Err(e) => Err(e),
                Ok(r) => match cx.expect(p + 4 + r.more, Tag::Semicolon) {
                    Some(e) => Err(e),
                    None => Ok(
                        Parsed { value: StmtModel::VarDecl(name, r.value), more: r.more + 4 },
                    ),
                },
            },
        },
    }
}

/// A print statement at `p`.
#[verifier::opaque]
pub open spec fn parse_print(cx: Source, p: nat) -> Result<Parsed<StmtModel>, ParseError> {
    match cx.expect(p + 1, Tag::LParen) {
        Some(e) => Err(e),
        None => match parse_level(cx, p + 2, 3) {
            Err(e) => Err(e),
            Ok(r) => match cx.expect(p + 3 + r.more, Tag::RParen) {
                Some(e) => Err(e),
                None => match cx.expect(p + 4 + r.more, Tag::Semicolon) {
                    Some(e) => Err(e),
                    None => Ok(Parsed { value: StmtModel::Print(r.value), more: r.more + 4 }),
                },
            },
        },
    }
}

/// An assignment at `p`, to a variable or to a field, or an expression that
/// stands as a statement.
#[verifier::opaque]
pub open spec fn parse_simple(cx: Source, p: nat) -> Result<Parsed<StmtModel>, ParseError> {
    match parse_level(cx, p, 3) {
        Err(e) => Err(e),
        Ok(target) => {
            let q = p + 1 + target.more;
            if cx.tag(q) == Tag::Assign {
                match parse_level(cx, q + 1, 3) {
                    Err(e) => Err(e),
                    Ok(value) => match cx.expect(q + 2 + value.more, Tag::Semicolon) {
                        Some(e) => Err(e),
                        None => match assignment(cx, p, target.value, value.value) {
                            Err(e) => Err(e),
                            Ok(s) => Ok(Parsed { value: s, more: target.more + value.more + 3 }),
                        },
                    },
                }
            } else {
                match cx.expect(q, Tag::Semicolon) {
                    Some(e) => Err(e),
                    None => Ok(
                        Parsed { value: StmtModel::ExprStmt(target.value), more: target.more + 1 },
                    ),
                }
            }
        },
    }
}

/// A condition in parentheses from `q` on.
#[verifier::opaque]
pub open spec fn parse_condition(cx: Source, q: nat) -> Result<Tail<ExprModel>, ParseError> {
    match cx.expect(q, Tag::LParen) {
        Some(e) => Err(e),
        None => match parse_level(cx, q + 1, 3) {
            Err(e) => Err(e),
            Ok(r) => match cx.expect(q + 2 + r.more, Tag::RParen) {
                Some(e) => Err(e),
                None => Ok(Tail { value: r.value, taken: r.more + 3 }),
            },
        },
    }
}

/// The second part of the header of a `for` statement, from `q` on: a
/// condition or nothing, which stands for a condition that always holds, and
/// a semicolon.
#[verifier::opaque]
pub open spec fn parse_for_condition(cx: Source, q: nat) -> Result<Tail<ExprModel>, ParseError> {
    if cx.tag(q) == Tag::Semicolon {
        Ok(Tail { value: ExprModel::Number(1), taken: 1 })
    } else {
        match parse_level(cx, q, 3) {
            Err(e) => Err(e),
            Ok(c) => match cx.expect(q + 1 + c.more, Tag::Semicolon) {
                Some(e) => Err(e),
                None => Ok(Tail { value: c.value, taken: c.more + 2 }),
            },
        }
    }
}

/// The last part of the header of a `for` statement, from `q` on: an
/// assignment or nothing, and the closing parenthesis.
#[verifier::opaque]
pub open spec fn parse_for_step(cx: Source, q: nat) -> Result<Tail<Seq<StmtModel>>, ParseError> {
    match cx.name(q) {
        Some(name) => match cx.expect(q + 1, Tag::Assign) {
            Some(e) => Err(e),
            None => match parse_level(cx, q + 2, 3) {
                Err(e) => Err(e),
                Ok(v) => match cx.expect(q + 3 + v.more, Tag::RParen) {
                    Some(e) => Err(e),
                    None => Ok(
                        Tail {
                            value: seq![StmtModel::Assignment(name, v.value)],
                            taken: v.more + 4,
                        },
                    ),
                },
            },
        },
        None => match cx.expect(q, Tag::RParen) {
            Some(e) => Err(e),
            None => Ok(Tail { value: Seq::empty(), taken: 1 }),
        },
    }
}

/// A statement at `p`.
pub open spec fn parse_stmt(cx: Source, p: nat) -> Result<Parsed<StmtModel>, ParseError>
    decreases cx.left(p), 12nat,
{
    match cx.tag(p) {
        Tag::Class => parse_class(cx, p),
        Tag::Import => parse_import(cx, p),
        Tag::Func => parse_function(cx, p),
        Tag::Return => parse_return(cx, p),
        Tag::Var => parse_var(cx, p),
        Tag::Print => parse_print(cx, p),
        Tag::If => parse_if(cx, p),
        Tag::While => parse_while(cx, p),
        Tag::For => parse_for(cx, p),
        _ => parse_simple(cx, p),
    }
}

/// The declaration of a class at `p`: its name, and in braces its fields
/// and its methods.
pub open spec fn parse_class(cx: Source, p: nat) -> Result<Parsed<StmtModel>, ParseError>
    decreases cx.left(p), 11nat,
{
    if cx.tag(p) != Tag::Class {
        cx.fail(p, ParseErrorKind::Expected(Tag::Class))
    } else {
        match cx.name(p + 1) {
            None => cx.fail(p + 1, ParseErrorKind::ExpectedClassName),
            Some(name) => match cx.expect(p + 2, Tag::LBrace) {
                Some(e) => Err(e),
                None => match parse_members(
                    cx,
                    p,
                    2,
                    Members { fields: Seq::empty(), methods: Seq::empty() },
                ) {
                    Err(e) => Err(e),
                    Ok(r) => Ok(
                        Parsed {
                            value: StmtModel::ClassDecl(name, r.value.fields, r.value.methods),
                            more: r.more,
                        },
                    ),
                },
            },
        }
    }
}

/// A conditional at `p`.
pub open spec fn parse_if(cx: Source, p: nat) -> Result<Parsed<StmtModel>, ParseError>
    decreases cx.left(p), 11nat,
{
    if cx.tag(p) != Tag::If {
        cx.fail(p, ParseErrorKind::Expected(Tag::If))
    } else {
        match parse_condition(cx, p + 1) {
            Err(e) => Err(e),
            Ok(c) => match parse_block(cx, p + 1 + c.taken) {
                Err(e) => Err(e),
                Ok(first) => match parse_else(cx, p + 2 + c.taken + first.more) {
                    Err(e) => Err(e),
                    Ok(second) => Ok(
                        Parsed {
                            value: StmtModel::IfStmt(c.value, first.value, second.value),
                            more: c.taken + first.more + 1 + second.taken,
                        },
                    ),
                },
            },
        }
    }
}

/// What follows the first block of a conditional, from `q` on: nothing, or
/// `else` and a block, or `else` and a conditional, which stands for a block
/// that holds only that conditional.
pub open spec fn parse_else(cx: Source, q: nat) -> Result<
    Tail<Option<Seq<StmtModel>>>,
    ParseError,
>
    decreases cx.left(q), 13nat,
{
    if cx.tag(q) != Tag::Else {
        Ok(Tail { value: None, taken: 0 })
    } else if cx.tag(q + 1) == Tag::If {
        match parse_stmt(cx, q + 1) {
            Err(e) => Err(e),
            Ok(nested) => Ok(Tail { value: Some(seq![nested.value]), taken: nested.more + 2 }),
        }
    } else {
        match parse_block(cx, q + 1) {
            Err(e) => Err(e),
            Ok(block) => Ok(Tail { value: Some(block.value), taken: block.more + 2 }),
        }
    }
}

/// A loop at `p`.
pub open spec fn parse_while(cx: Source, p: nat) -> Result<Parsed<StmtModel>, ParseError>
    decreases cx.left(p), 11nat,
{
    if cx.tag(p) != Tag::While {
        cx.fail(p, ParseErrorKind::Expected(Tag::While))
    } else {
        match parse_condition(cx, p + 1) {
            Err(e) => Err(e),
            Ok(c) => match parse_block(cx, p + 1 + c.taken) {
                Err(e) => Err(e),
                Ok(body) => Ok(
                    Parsed {
                        value: StmtModel::WhileStmt(c.value, body.value),
                        more: c.taken + body.more + 1,
                    },
                ),
            },
        }
    }
}

/// The first part of the header of a `for` statement, from `q` on: a
/// statement, or only a semicolon.
pub open spec fn parse_for_init(cx: Source, q: nat) -> Result<Tail<Seq<StmtModel>>, ParseError>
    decreases cx.left(q), 13nat,
{
    if cx.tag(q) == Tag::Semicolon {
        Ok(Tail { value: Seq::empty(), taken: 1 })
    } else {
        match parse_stmt(cx, q) {
            Err(e) => Err(e),
            Ok(s) => Ok(Tail { value: seq![s.value], taken: s.more + 1 }),
        }
    }
}

/// A `for` statement at `p`. It stands for a block of the first part of its
/// header and a loop on its condition, whose body ends with the last part of
/// the header.
pub open spec fn parse_for(cx: Source, p: nat) -> Result<Parsed<StmtModel>, ParseError>
    decreases cx.left(p), 11nat,
{
    if cx.tag(p) != Tag::For {
        cx.fail(p, ParseErrorKind::Expected(Tag::For))
    } else {
        match cx.expect(p + 1, Tag::LParen) {
            Some(e) => Err(e),
            None => match parse_for_init(cx, p + 2) {
                Err(e) => Err(e),
                Ok(init) => match parse_for_condition(cx, p + 2 + init.taken) {
                    Err(e) => Err(e),
                    Ok(c) => match parse_for_step(cx, p + 2 + init.taken + c.taken) {
                        Err(e) => Err(e),
                        Ok(step) => match parse_block(
                            cx,
                            p + 2 + init.taken + c.taken + step.taken,
                        ) {
                            Err(e) => Err(e),
                            Ok(body) => Ok(
                                Parsed {
                                    value: StmtModel::BlockStmt(
                                        init.value.push(
                                            StmtModel::WhileStmt(
                                                c.value,
                                                body.value + step.value,
                                            ),
                                        ),
                                    ),
                                    more: init.taken + c.taken + step.taken + body.more + 2,
                                },
                            ),
                        },
                    },
                },
            },
        }
    }
}

/// The name and the parameters of a function.
pub struct Signature {
    pub name: Seq<char>,
    pub params: Seq<Seq<char>>,
}

/// The head of the declaration of a function at `p`: the keyword, the name,
/// and the parameters in parentheses.
#[verifier::opaque]
pub open spec fn parse_signature(cx: Source, p: nat) -> Result<Parsed<Signature>, ParseError> {
    match cx.expect(p, Tag::Func) {
        Some(e) => Err(e),
        None => match cx.name(p + 1) {
            None => cx.fail(p + 1, ParseErrorKind::ExpectedFunctionName),
            Some(name) => match cx.expect(p + 2, Tag::LParen) {
                Some(e) => Err(e),
                None => match cx.expect(p + 3 + parse_params(cx, p + 3).taken, Tag::RParen) {
                    Some(e) => Err(e),
                    None => Ok(
                        Parsed {
                            value: Signature { name, params: parse_params(cx, p + 3).value },
                            more: parse_params(cx, p + 3).taken + 3,
                        },
                    ),
                },
            },
        },
    }
}

/// The declaration of a function at `p`, where the keyword stands: the name,
/// the parameters in parentheses, and the body.
pub open spec fn parse_function(cx: Source, p: nat) -> Result<Parsed<StmtModel>, ParseError>
    decreases cx.left(p), 11nat,
{
    match parse_signature(cx, p) {
        Err(e) => Err(e),
        Ok(head) => {
            proof {
                reveal(parse_signature);
            }
            match parse_block(cx, p + 1 + head.more) {
                Err(e) => Err(e),
                Ok(body) => Ok(
                    Parsed {
                        value: StmtModel::FuncDecl(head.value.name, head.value.params, body.value),
                        more: head.more + body.more + 1,
                    },
                ),
            }
        },
    }
}

/// A block at `p`: statements in braces.
pub open spec fn parse_block(cx: Source, p: nat) -> Result<Parsed<Seq<StmtModel>>, ParseError>
    decreases cx.left(p), 13nat,
{
    match cx.expect(p, Tag::LBrace) {
        Some(e) => Err(e),
        None => block_rest(cx, p, 0, Seq::empty()),
    }
}

/// The statements of a block that began at `p`, after those in `before`,
/// and the closing brace. `m` tokens were taken beyond the first.
pub open spec fn block_rest(cx: Source, p: nat, m: nat, before: Seq<StmtModel>) -> Result<
    Parsed<Seq<StmtModel>>,
    ParseError,
>
    decreases cx.left(p + 1 + m), 13nat,
{
    let q = p + 1 + m;
    if cx.tag(q) == Tag::RBrace {
        Ok(Parsed { value: before, more: m + 1 })
    } else if cx.tag(q) == Tag::EOF {
        cx.fail(q, ParseErrorKind::Expected(Tag::RBrace))
    } else {
        match parse_stmt(cx, q) {
            Err(e) => Err(e),
            Ok(s) => block_rest(cx, p, m + 1 + s.more, before.push(s.value)),
        }
    }
}

/// The members of a class whose declaration began at `p`, after those in
/// `before`, and the closing brace. A member is a field, `var name;`, or a
/// method, which is a function.
pub open spec fn parse_members(cx: Source, p: nat, m: nat, before: Members) -> Result<
    Parsed<Members>,
    ParseError,
>
    decreases cx.left(p + 1 + m), 13nat,
{
    let q = p + 1 + m;
    match cx.tag(q) {
        Tag::RBrace => Ok(Parsed { value: before, more: m + 1 }),
        Tag::EOF => cx.fail(q, ParseErrorKind::Expected(Tag::RBrace)),
        Tag::Var => match cx.name(q + 1) {
            None => cx.fail(q + 1, ParseErrorKind::ExpectedFieldName),
            Some(field) => match cx.expect(q + 2, Tag::Semicolon) {
                Some(e) => Err(e),
                None => parse_members(
                    cx,
                    p,
                    m + 3,
                    Members { fields: before.fields.push(field), methods: before.methods },
                ),
            },
        },
        Tag::Func => match parse_function(cx, q) {
            Err(e) => Err(e),
            Ok(f) => parse_members(
                cx,
                p,
                m + 1 + f.more,
                Members { fields: before.fields, methods: before.methods.push(f.value) },
            ),
        },
        _ => cx.fail(q, ParseErrorKind::InvalidClassMember),
    }
}

/// The statements of a program, after those in `before`, which took `taken`
/// tokens from `q` on, up to the end marker, which is not taken.
pub open spec fn parse_program(cx: Source, q: nat, taken: nat, before: Seq<StmtModel>) -> Result<
    Tail<Seq<StmtModel>>,
    ParseError,
>
    decreases cx.left(q + taken), 13nat,
{
    if cx.tag(q + taken) == Tag::EOF {
        Ok(Tail { value: before, taken })
    } else {
        match parse_stmt(cx, q + taken) {
            Err(e) => Err(e),
            Ok(s) => parse_program(cx, q, taken + 1 + s.more, before.push(s.value)),
        }
    }
}

} // verus!
