//! The syntax tree: expressions and statements.

use crate::text::{copy_texts, texts};
use crate::token::{TokenKind, TokenType};
use vstd::prelude::*;

verus! {

/// An expression. Each node owns its sub-expressions.
#[derive(Debug, PartialEq)]
pub enum Expr {
    /// A numeric literal.
    Number(i32),
    /// A string literal.
    String(String),
    /// A reference to a variable.
    Variable(String),
    /// An array literal; it may only initialise a declared variable.
    ArrayLiteral(Vec<Expr>),
    /// `name[index]`
    IndexAccess(String, Box<Expr>),
    /// `name(arguments)`
    Call(String, Vec<Expr>),
    /// `left operator right`
    Binary(Box<Expr>, TokenType, Box<Expr>),
    /// `new Class()`
    New(String),
    /// `object.field`
    Get(Box<Expr>, String),
    /// `object.field = value`
    Assign(Box<Expr>, String, Box<Expr>),
    /// `object.method(arguments)`
    MethodCall(Box<Expr>, String, Vec<Expr>),
}

/// A statement.
#[derive(Debug, PartialEq)]
pub enum Stmt {
    /// `var name = value;`
    VarDecl(String, Expr),
    /// `name = value;`
    Assignment(String, Expr),
    /// `print(value);`
    Print(Expr),
    /// `if (condition) { .. } else { .. }`, the second block being optional.
    IfStmt(Expr, Vec<Stmt>, Option<Vec<Stmt>>),
    /// `while (condition) { .. }`
    WhileStmt(Expr, Vec<Stmt>),
    /// A list of statements; it opens no scope.
    BlockStmt(Vec<Stmt>),
    /// A function: its name, its parameter names and its body.
    FuncDecl(String, Vec<String>, Vec<Stmt>),
    /// A class: its name, its field names in order and its methods.
    ClassDecl(String, Vec<String>, Vec<Stmt>),
    /// `return;` or `return value;`
    ReturnStmt(Option<Expr>),
    /// An expression evaluated for its effect.
    ExprStmt(Expr),
}

/// The mathematical form of an `Expr`.
pub enum ExprModel {
    Number(i32),
    String(Seq<char>),
    Variable(Seq<char>),
    ArrayLiteral(Seq<ExprModel>),
    IndexAccess(Seq<char>, Box<ExprModel>),
    Call(Seq<char>, Seq<ExprModel>),
    Binary(Box<ExprModel>, TokenKind, Box<ExprModel>),
    New(Seq<char>),
    Get(Box<ExprModel>, Seq<char>),
    Assign(Box<ExprModel>, Seq<char>, Box<ExprModel>),
    MethodCall(Box<ExprModel>, Seq<char>, Seq<ExprModel>),
}

/// The mathematical form of a `Stmt`.
pub enum StmtModel {
    VarDecl(Seq<char>, ExprModel),
    Assignment(Seq<char>, ExprModel),
    Print(ExprModel),
    IfStmt(ExprModel, Seq<StmtModel>, Option<Seq<StmtModel>>),
    WhileStmt(ExprModel, Seq<StmtModel>),
    BlockStmt(Seq<StmtModel>),
    FuncDecl(Seq<char>, Seq<Seq<char>>, Seq<StmtModel>),
    ClassDecl(Seq<char>, Seq<Seq<char>>, Seq<StmtModel>),
    ReturnStmt(Option<ExprModel>),
    ExprStmt(ExprModel),
}

/// The mathematical form of an expression.
pub open spec fn expr_model(e: Expr) -> ExprModel
    decreases e,
{
    match e {
        Expr::Number(n) => ExprModel::Number(n),
        Expr::String(s) => ExprModel::String(s@),
        Expr::Variable(name) => ExprModel::Variable(name@),
        Expr::ArrayLiteral(items) => ExprModel::ArrayLiteral(expr_models(items@)),
        Expr::IndexAccess(name, index) => ExprModel::IndexAccess(
            name@,
            Box::new(expr_model(*index)),
        ),
        Expr::Call(name, args) => ExprModel::Call(name@, expr_models(args@)),
        Expr::Binary(left, op, right) => ExprModel::Binary(
            Box::new(expr_model(*left)),
            op@,
            Box::new(expr_model(*right)),
        ),
        Expr::New(class) => ExprModel::New(class@),
        Expr::Get(object, field) => ExprModel::Get(Box::new(expr_model(*object)), field@),
        Expr::Assign(object, field, value) => ExprModel::Assign(
            Box::new(expr_model(*object)),
            field@,
            Box::new(expr_model(*value)),
        ),
        Expr::MethodCall(object, method, args) => ExprModel::MethodCall(
            Box::new(expr_model(*object)),
            method@,
            expr_models(args@),
        ),
    }
}

/// The mathematical forms of a sequence of expressions.
pub open spec fn expr_models(items: Seq<Expr>) -> Seq<ExprModel>
    decreases items,
{
    Seq::new(
        items.len(),
        |i: int|
            if 0 <= i < items.len() {
                expr_model(items[i])
            } else {
                ExprModel::Number(0)
            },
    )
}

/// The mathematical form of a statement.
pub open spec fn stmt_model(s: Stmt) -> StmtModel
    decreases s,
{
    match s {
        Stmt::VarDecl(name, value) => StmtModel::VarDecl(name@, expr_model(value)),
        Stmt::Assignment(name, value) => StmtModel::Assignment(name@, expr_model(value)),
        Stmt::Print(value) => StmtModel::Print(expr_model(value)),
        Stmt::IfStmt(condition, first, second) => StmtModel::IfStmt(
            expr_model(condition),
            stmt_models(first@),
            match second {
                Some(block) => Some(stmt_models(block@)),
                None => None,
            },
        ),
        Stmt::WhileStmt(condition, body) => StmtModel::WhileStmt(
            expr_model(condition),
            stmt_models(body@),
        ),
        Stmt::BlockStmt(stmts) => StmtModel::BlockStmt(stmt_models(stmts@)),
        Stmt::FuncDecl(name, params, body) => StmtModel::FuncDecl(
            name@,
            texts(params@),
            stmt_models(body@),
        ),
        Stmt::ClassDecl(name, fields, methods) => StmtModel::ClassDecl(
            name@,
            texts(fields@),
            stmt_models(methods@),
        ),
        Stmt::ReturnStmt(value) => StmtModel::ReturnStmt(
            match value {
                Some(e) => Some(expr_model(e)),
                None => None,
            },
        ),
        Stmt::ExprStmt(value) => StmtModel::ExprStmt(expr_model(value)),
    }
}

/// The mathematical forms of a sequence of statements.
pub open spec fn stmt_models(items: Seq<Stmt>) -> Seq<StmtModel>
    decreases items,
{
    Seq::new(
        items.len(),
        |i: int|
            if 0 <= i < items.len() {
                stmt_model(items[i])
            } else {
                StmtModel::BlockStmt(Seq::empty())
            },
    )
}

impl View for Expr {
    type V = ExprModel;

    open spec fn view(&self) -> ExprModel {
        expr_model(*self)
    }
}

impl View for Stmt {
    type V = StmtModel;

    open spec fn view(&self) -> StmtModel {
        stmt_model(*self)
    }
}

/// A copy of a list of expressions.
pub fn copy_exprs(items: &Vec<Expr>) -> (r: Vec<Expr>)
    ensures
        expr_models(r@) == expr_models(items@),
    decreases items, 0nat,
{
    let mut r: Vec<Expr> = Vec::new();
    let mut i: usize = 0;
    while i < items.len()
        invariant
            i <= items.len(),
            r@.len() == i,
            forall|j: int| 0 <= j < i ==> expr_model(r@[j]) == expr_model(items@[j]),
        decreases items.len() - i,
    {
        r.push(items[i].duplicate());
        i += 1;
    }
    assert(expr_models(r@) =~= expr_models(items@));
    r
}

/// A copy of a list of statements.
pub fn copy_stmts(items: &Vec<Stmt>) -> (r: Vec<Stmt>)
    ensures
        stmt_models(r@) == stmt_models(items@),
    decreases items, 0nat,
{
    let mut r: Vec<Stmt> = Vec::new();
    let mut i: usize = 0;
    while i < items.len()
        invariant
            i <= items.len(),
            r@.len() == i,
            forall|j: int| 0 <= j < i ==> stmt_model(r@[j]) == stmt_model(items@[j]),
        decreases items.len() - i,
    {
        r.push(items[i].duplicate());
        i += 1;
    }
    assert(stmt_models(r@) =~= stmt_models(items@));
    r
}

impl Expr {
    /// A copy of this expression.
    pub fn duplicate(&self) -> (r: Expr)
        ensures
            r@ == self@,
        decreases self, 1nat,
    {
        match self {
            Expr::Number(n) => Expr::Number(*n),
            Expr::String(s) => Expr::String(s.clone()),
            Expr::Variable(name) => Expr::Variable(name.clone()),
            Expr::ArrayLiteral(items) => Expr::ArrayLiteral(copy_exprs(items)),
            Expr::IndexAccess(name, index) => Expr::IndexAccess(
                name.clone(),
                Box::new(index.duplicate()),
            ),
            Expr::Call(name, args) => Expr::Call(name.clone(), copy_exprs(args)),
            Expr::Binary(left, op, right) => Expr::Binary(
                Box::new(left.duplicate()),
                op.duplicate(),
                Box::new(right.duplicate()),
            ),
            Expr::New(class) => Expr::New(class.clone()),
            Expr::Get(object, field) => Expr::Get(Box::new(object.duplicate()), field.clone()),
            Expr::Assign(object, field, value) => Expr::Assign(
                Box::new(object.duplicate()),
                field.clone(),
                Box::new(value.duplicate()),
            ),
            Expr::MethodCall(object, method, args) => Expr::MethodCall(
                Box::new(object.duplicate()),
                method.clone(),
                copy_exprs(args),
            ),
        }
    }
}

impl Stmt {
    /// A copy of this statement.
    pub fn duplicate(&self) -> (r: Stmt)
        ensures
            r@ == self@,
        decreases self, 1nat,
    {
        match self {
            Stmt::VarDecl(name, value) => Stmt::VarDecl(name.clone(), value.duplicate()),
            Stmt::Assignment(name, value) => Stmt::Assignment(name.clone(), value.duplicate()),
            Stmt::Print(value) => Stmt::Print(value.duplicate()),
            Stmt::IfStmt(condition, first, second) => Stmt::IfStmt(
                condition.duplicate(),
                copy_stmts(first),
                match second {
                    Some(block) => Some(copy_stmts(block)),
                    None => None,
                },
            ),
            Stmt::WhileStmt(condition, body) => Stmt::WhileStmt(
                condition.duplicate(),
                copy_stmts(body),
            ),
            Stmt::BlockStmt(stmts) => Stmt::BlockStmt(copy_stmts(stmts)),
            Stmt::FuncDecl(name, params, body) => Stmt::FuncDecl(
                name.clone(),
                copy_texts(params),
                copy_stmts(body),
            ),
            Stmt::ClassDecl(name, fields, methods) => Stmt::ClassDecl(
                name.clone(),
                copy_texts(fields),
                copy_stmts(methods),
            ),
            Stmt::ReturnStmt(value) => Stmt::ReturnStmt(
                match value {
                    Some(e) => Some(e.duplicate()),
                    None => None,
                },
            ),
            Stmt::ExprStmt(value) => Stmt::ExprStmt(value.duplicate()),
        }
    }
}

} // verus!
