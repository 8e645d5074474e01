//! The parser: from tokens to statements, by recursive descent.

use crate::ast::{copy_stmts, expr_models, stmt_models, Expr, ExprModel, Stmt, StmtModel};
use crate::error::{ParseError, ParseErrorKind};
use crate::grammar::{
    assignment, parse_atom, block_rest, level_rest, module_paths, params_rest, parse_block, parse_class,
    parse_condition, parse_else, parse_for, parse_for_condition, parse_for_init, parse_for_step,
    parse_function, parse_if, parse_import, parse_items, parse_level, parse_list, parse_members,
    parse_params, parse_primary, parse_print, parse_program, parse_return, parse_signature, parse_simple,
    parse_stmt, parse_var, starts_suffix, suffix, parse_while, postfix, step, with_name, Members, ModuleModel, Parsed, Source, Tail,
};
use crate::text::{lemma_position, position, same_text, texts};
use crate::token::{tag, token_views, Tag, Token, TokenKind, TokenModel, TokenType};
use vstd::prelude::*;

verus! {

/// A module that can be imported: its path and its statements.
pub struct Module {
    pub path: String,
    pub body: Vec<Stmt>,
}

impl View for Module {
    type V = ModuleModel;

    open spec fn view(&self) -> ModuleModel {
        ModuleModel { path: self.path@, body: stmt_models(self.body@) }
    }
}

/// The views of a sequence of modules.
pub open spec fn module_views(modules: Seq<Module>) -> Seq<ModuleModel> {
    Seq::new(modules.len(), |i: int| modules[i]@)
}

/// The state of a parser: what it works on, and the position of the next
/// token.
pub struct ParserModel {
    pub source: Source,
    pub pos: nat,
}

/// A parser over a sequence of tokens.
pub struct Parser {
    tokens: Vec<Token>,
    pos: usize,
    modules: Vec<Module>,
}

impl View for Parser {
    type V = ParserModel;

    closed spec fn view(&self) -> ParserModel {
        ParserModel {
            source: Source {
                tokens: token_views(self.tokens@),
                modules: module_views(self.modules@),
            },
            pos: self.pos as nat,
        }
    }
}

/// Whether the outcome of parsing one construct is the one that the grammar
/// gives: on success the same value and the position after the tokens it
/// took, on failure the same failure.
pub open spec fn parsed_expr(
    model: Result<Parsed<ExprModel>, ParseError>,
    r: Result<Expr, ParseError>,
    before: nat,
    after: nat,
) -> bool {
    match model {
        Ok(m) => r is Ok && r->Ok_0@ == m.value && after == before + 1 + m.more,
        Err(e) => r == Err::<Expr, ParseError>(e),
    }
}

/// As `parsed_expr`, for a statement.
pub open spec fn parsed_stmt(
    model: Result<Parsed<StmtModel>, ParseError>,
    r: Result<Stmt, ParseError>,
    before: nat,
    after: nat,
) -> bool {
    match model {
        Ok(m) => r is Ok && r->Ok_0@ == m.value && after == before + 1 + m.more,
        Err(e) => r == Err::<Stmt, ParseError>(e),
    }
}

/// As `parsed_expr`, for a block.
pub open spec fn parsed_block(
    model: Result<Parsed<Seq<StmtModel>>, ParseError>,
    r: Result<Vec<Stmt>, ParseError>,
    before: nat,
    after: nat,
) -> bool {
    match model {
        Ok(m) => r is Ok && stmt_models(r->Ok_0@) == m.value && after == before + 1 + m.more,
        Err(e) => r == Err::<Vec<Stmt>, ParseError>(e),
    }
}

impl Parser {
    #[verifier::type_invariant]
    spec fn inside(&self) -> bool {
        self.pos <= self.tokens@.len()
    }

    /// A parser at the first of `tokens`, without modules to import.
    pub fn new(tokens: Vec<Token>) -> (p: Parser)
        ensures
            p@ == (ParserModel {
                source: Source { tokens: token_views(tokens@), modules: Seq::empty() },
                pos: 0,
            }),
    {
        let p = Parser { tokens, pos: 0, modules: Vec::new() };
        assert(module_views(p.modules@) =~= Seq::<ModuleModel>::empty());
        p
    }

    /// A parser at the first of `tokens`; an import of a path gives the
    /// statements of the first of `modules` with that path.
    pub fn with_modules(tokens: Vec<Token>, modules: Vec<Module>) -> (p: Parser)
        ensures
            p@ == (ParserModel {
                source: Source { tokens: token_views(tokens@), modules: module_views(modules@) },
                pos: 0,
            }),
    {
        Parser { tokens, pos: 0, modules }
    }

    /// The tag of the next token; past the last token, the end marker.
    fn peek(&self) -> (t: Tag)
        ensures
            t == self@.source.tag(self@.pos),
            self@.pos <= self@.source.tokens.len(),
            t != Tag::EOF ==> self@.pos < self@.source.tokens.len(),
    {
        proof {
            use_type_invariant(self);
        }
        if self.pos < self.tokens.len() {
            self.tokens[self.pos].kind.tag()
        } else {
            Tag::EOF
        }
    }

    /// The failure of the given kind at the next token.
    fn error(&self, kind: ParseErrorKind) -> (e: ParseError)
        ensures
            e == (ParseError { kind, line: self@.source.line(self@.pos) }),
    {
        proof {
            use_type_invariant(self);
        }
        let line = if self.pos < self.tokens.len() {
            self.tokens[self.pos].line
        } else if self.tokens.len() > 0 {
            self.tokens[self.tokens.len() - 1].line
        } else {
            0
        };
        ParseError { kind, line }
    }

    /// Passes over the next token, unless it is the end marker.
    fn advance(&mut self)
        ensures
            final(self)@.source == old(self)@.source,
            final(self)@.pos == old(self)@.pos + step(old(self)@.source, old(self)@.pos),
    {
        proof {
            use_type_invariant(&*self);
        }
        if self.pos < self.tokens.len() && self.peek() != Tag::EOF {
            self.pos += 1;
        }
    }

    /// Passes over the next token if it has the tag `expected`, and fails
    /// if it has not.
    fn consume(&mut self, expected: Tag) -> (r: Result<(), ParseError>)
        requires
            expected != Tag::EOF,
        ensures
            final(self)@.source == old(self)@.source,
            match old(self)@.source.expect(old(self)@.pos, expected) {
                None => r is Ok && final(self)@.pos == old(self)@.pos + 1,
                Some(e) => r == Err::<(), ParseError>(e),
            },
            r is Ok ==> old(self)@.pos < old(self)@.source.tokens.len(),
    {
        proof {
            use_type_invariant(&*self);
        }
        if self.pos < self.tokens.len() && self.peek() == expected {
            self.pos += 1;
            Ok(())
        } else {
            Err(self.error(ParseErrorKind::Expected(expected)))
        }
    }

    /// Passes over the next token if it is a name, and returns the name.
    fn take_name(&mut self) -> (r: Option<String>)
        ensures
            final(self)@.source == old(self)@.source,
            match old(self)@.source.name(old(self)@.pos) {
                Some(n) => r is Some && r->Some_0@ == n && final(self)@.pos == old(self)@.pos + 1,
                None => r is None && final(self)@.pos == old(self)@.pos,
            },
    {
        proof {
            use_type_invariant(&*self);
        }
        if self.pos < self.tokens.len() {
            if let TokenType::Id(name) = &self.tokens[self.pos].kind {
                let name = name.clone();
                self.pos += 1;
                return Some(name);
            }
        }
        None
    }

    /// A copy of the kind of the next token, which is inside the input.
    fn kind(&self) -> (k: TokenType)
        requires
            self@.pos < self@.source.tokens.len(),
        ensures
            k@ == self@.source.kind(self@.pos),
    {
        self.tokens[self.pos].kind.duplicate()
    }

    /// A list of expressions, separated by commas, and the token that
    /// closes it.
    fn parse_list(&mut self, close: Tag) -> (r: Result<Vec<Expr>, ParseError>)
        requires
            close != Tag::EOF,
        ensures
            final(self)@.source == old(self)@.source,
            match parse_list(old(self)@.source, old(self)@.pos, close) {
                Ok(t) => r is Ok && expr_models(r->Ok_0@) == t.value && final(self)@.pos == old(
                    self,
                )@.pos + t.taken,
                Err(e) => r == Err::<Vec<Expr>, ParseError>(e),
            },
        decreases old(self)@.source.left(old(self)@.pos), 14nat,
    {
        let ghost cx = self@.source;
        let ghost q = self@.pos;
        let mut items: Vec<Expr> = Vec::new();
        if self.peek() == close {
            self.advance();
            assert(expr_models(items@) =~= Seq::<ExprModel>::empty());
            return Ok(items);
        }
        assert(expr_models(items@) =~= Seq::<ExprModel>::empty());
        loop
            invariant_except_break
                parse_items(cx, q, (self@.pos - q) as nat, expr_models(items@)) == parse_items(
                    cx,
                    q,
                    0,
                    Seq::empty(),
                ),
            invariant
                self@.source == cx,
                cx == old(self)@.source,
                q == old(self)@.pos,
                q <= self@.pos,
                close != Tag::EOF,
                cx.tag(q) != close,
            ensures
                parse_items(cx, q, 0, Seq::empty()) == Ok::<Tail<Seq<ExprModel>>, ParseError>(
                    Tail { value: expr_models(items@), taken: (self@.pos - q) as nat },
                ),
            decreases cx.left(self@.pos),
        {
            let item = match self.parse_expr() {
                Ok(e) => e,
                Err(e) => {
                    return Err(e);
                },
            };
            proof {
                assert(expr_models(items@.push(item)) =~= expr_models(items@).push(item@));
            }
            items.push(item);
            if self.peek() == Tag::Comma {
                self.advance();
            } else {
                break ;
            }
        }
        match self.consume(close) {
            Ok(()) => Ok(items),
            Err(e) => Err(e),
        }
    }

    /// An atom: a literal, a name, an object construction, an array literal
    /// or an expression in parentheses.
    #[verifier::rlimit(50)]
    fn parse_atom(&mut self) -> (r: Result<Expr, ParseError>)
        ensures
            final(self)@.source == old(self)@.source,
            parsed_expr(
                parse_atom(old(self)@.source, old(self)@.pos),
                r,
                old(self)@.pos,
                final(self)@.pos,
            ),
        decreases old(self)@.source.left(old(self)@.pos), 0nat,
    {
        if let Some(name) = self.take_name() {
            return Ok(Expr::Variable(name));
        }
        if let Some(content) = self.string() {
            self.advance();
            return Ok(Expr::String(content));
        }
        if let Some(n) = self.number() {
            self.advance();
            return Ok(Expr::Number(n));
        }
        match self.peek() {
            Tag::New => {
                self.advance();
                let class = match self.take_name() {
                    Some(class) => class,
                    None => {
                        return Err(self.error(ParseErrorKind::ExpectedClassName));
                    },
                };
                self.consume(Tag::LParen)?;
                self.consume(Tag::RParen)?;
                Ok(Expr::New(class))
            },
            Tag::LBracket => {
                self.advance();
                let items = self.parse_list(Tag::RBracket)?;
                Ok(Expr::ArrayLiteral(items))
            },
            Tag::LParen => {
                self.advance();
                let inner = self.parse_expr()?;
                self.consume(Tag::RParen)?;
                Ok(inner)
            },
            _ => Err(self.error(ParseErrorKind::UnexpectedToken)),
        }
    }

    /// A primary expression: an atom, and the calls, indices and member
    /// accesses that follow it.
    #[verifier::rlimit(50)]
    fn parse_primary(&mut self) -> (r: Result<Expr, ParseError>)
        ensures
            final(self)@.source == old(self)@.source,
            parsed_expr(
                parse_primary(old(self)@.source, old(self)@.pos),
                r,
                old(self)@.pos,
                final(self)@.pos,
            ),
        decreases old(self)@.source.left(old(self)@.pos), 2nat,
    {
        let ghost cx = self@.source;
        let ghost p = self@.pos;
        let mut expr = self.parse_atom()?;
        loop
            invariant_except_break
                postfix(cx, expr@, p, (self@.pos - p - 1) as nat) == parse_primary(cx, p),
            invariant
                self@.source == cx,
                cx == old(self)@.source,
                p == old(self)@.pos,
                p < self@.pos,
            ensures
                parsed_expr(parse_primary(cx, p), Ok::<Expr, ParseError>(expr), p, self@.pos),
            decreases cx.left(self@.pos),
        {
            let t = self.peek();
            if t == Tag::LParen || t == Tag::LBracket || t == Tag::Dot {
                expr = self.parse_suffix(expr)?;
            } else {
                break ;
            }
        }
        Ok(expr)
    }

    /// One call, index or member access, applied to `expr`.
    #[verifier::rlimit(50)]
    fn parse_suffix(&mut self, expr: Expr) -> (r: Result<Expr, ParseError>)
        ensures
            final(self)@.source == old(self)@.source,
            parsed_expr(
                suffix(old(self)@.source, expr@, old(self)@.pos),
                r,
                old(self)@.pos,
                final(self)@.pos,
            ),
        decreases old(self)@.source.left(old(self)@.pos), 0nat,
    {
        let here = self.error(ParseErrorKind::UnexpectedToken);
        match self.peek() {
            Tag::LParen => {
                self.advance();
                let args = self.parse_list(Tag::RParen)?;
                match expr {
                    Expr::Variable(name) => Ok(Expr::Call(name, args)),
                    Expr::Get(object, name) => Ok(Expr::MethodCall(object, name, args)),
                    _ => Err(
                        ParseError { kind: ParseErrorKind::InvalidCallTarget, line: here.line },
                    ),
                }
            },
            Tag::LBracket => {
                self.advance();
                let index = self.parse_expr()?;
                self.consume(Tag::RBracket)?;
                match expr {
                    Expr::Variable(name) => Ok(Expr::IndexAccess(name, Box::new(index))),
                    _ => Err(
                        ParseError { kind: ParseErrorKind::InvalidIndexTarget, line: here.line },
                    ),
                }
            },
            Tag::Dot => {
                self.advance();
                match self.take_name() {
                    Some(field) => Ok(Expr::Get(Box::new(expr), field)),
                    None => Err(self.error(ParseErrorKind::ExpectedFieldName)),
                }
            },
            _ => Err(here),
        }
    }

    /// An operand of an operator of the given level: an expression of the
    /// level below.
    fn parse_operand(&mut self, level: u8) -> (r: Result<Expr, ParseError>)
        requires
            1 <= level <= 3,
        ensures
            final(self)@.source == old(self)@.source,
            parsed_expr(
                parse_level(old(self)@.source, old(self)@.pos, (level - 1) as nat),
                r,
                old(self)@.pos,
                final(self)@.pos,
            ),
        decreases old(self)@.source.left(old(self)@.pos), 4 * level - 1,
    {
        if level == 1 {
            self.parse_primary()
        } else if level == 2 {
            self.parse_term()
        } else {
            self.parse_arithmetic()
        }
    }

    /// An expression of the given level, from 1 to 3.
    fn parse_binary(&mut self, level: u8) -> (r: Result<Expr, ParseError>)
        requires
            1 <= level <= 3,
        ensures
            final(self)@.source == old(self)@.source,
            parsed_expr(
                parse_level(old(self)@.source, old(self)@.pos, level as nat),
                r,
                old(self)@.pos,
                final(self)@.pos,
            ),
        decreases old(self)@.source.left(old(self)@.pos), 4 * level,
    {
        let ghost cx = self@.source;
        let ghost p = self@.pos;
        let mut node = self.parse_operand(level)?;
        loop
            invariant
                1 <= level <= 3,
                self@.source == cx,
                cx == old(self)@.source,
                p == old(self)@.pos,
                p < self@.pos,
                level_rest(cx, node@, p, (self@.pos - p - 1) as nat, level as nat) == parse_level(
                    cx,
                    p,
                    level as nat,
                ),
            ensures
                self@.source == cx,
                parsed_expr(
                    parse_level(cx, p, level as nat),
                    Ok::<Expr, ParseError>(node),
                    p,
                    self@.pos,
                ),
            decreases cx.left(self@.pos),
        {
            let t = self.peek();
            let here: u8 = match t {
                Tag::Mul | Tag::Div => 1,
                Tag::Plus | Tag::Minus => 2,
                Tag::Eq | Tag::Neq | Tag::Lt | Tag::Gt | Tag::Lte | Tag::Gte => 3,
                _ => 0,
            };
            if here != level {
                break ;
            }
            let op = self.kind();
            self.advance();
            let right = self.parse_operand(level)?;
            node = Expr::Binary(Box::new(node), op, Box::new(right));
        }
        Ok(node)
    }

    /// A term: primary expressions joined by `*` and `/`.
    fn parse_term(&mut self) -> (r: Result<Expr, ParseError>)
        ensures
            final(self)@.source == old(self)@.source,
            parsed_expr(
                parse_level(old(self)@.source, old(self)@.pos, 1),
                r,
                old(self)@.pos,
                final(self)@.pos,
            ),
        decreases old(self)@.source.left(old(self)@.pos), 5nat,
    {
        self.parse_binary(1)
    }

    /// A sum: terms joined by `+` and `-`.
    fn parse_arithmetic(&mut self) -> (r: Result<Expr, ParseError>)
        ensures
            final(self)@.source == old(self)@.source,
            parsed_expr(
                parse_level(old(self)@.source, old(self)@.pos, 2),
                r,
                old(self)@.pos,
                final(self)@.pos,
            ),
        decreases old(self)@.source.left(old(self)@.pos), 9nat,
    {
        self.parse_binary(2)
    }

    /// An expression: sums joined by comparisons.
    fn parse_expr(&mut self) -> (r: Result<Expr, ParseError>)
        ensures
            final(self)@.source == old(self)@.source,
            parsed_expr(
                parse_level(old(self)@.source, old(self)@.pos, 3),
                r,
                old(self)@.pos,
                final(self)@.pos,
            ),
        decreases old(self)@.source.left(old(self)@.pos), 13nat,
    {
        self.parse_binary(3)
    }

    /// Takes one parameter: a name is added to `names`, any other token is
    /// passed over.
    fn take_param(&mut self, names: &mut Vec<String>)
        ensures
            final(self)@.source == old(self)@.source,
            final(self)@.pos == old(self)@.pos + step(old(self)@.source, old(self)@.pos),
            texts(final(names)@) == with_name(
                old(self)@.source,
                old(self)@.pos,
                texts(old(names)@),
            ),
    {
        match self.take_name() {
            Some(name) => {
                assert(texts(names@.push(name)) =~= texts(names@).push(name@));
                names.push(name);
            },
            None => {
                self.advance();
            },
        }
    }

    /// The parameters of a function, up to the closing parenthesis.
    fn parse_params(&mut self) -> (names: Vec<String>)
        ensures
            final(self)@.source == old(self)@.source,
            texts(names@) == parse_params(old(self)@.source, old(self)@.pos).value,
            final(self)@.pos == old(self)@.pos + parse_params(
                old(self)@.source,
                old(self)@.pos,
            ).taken,
    {
        reveal(parse_params);
        let ghost cx = self@.source;
        let ghost q = self@.pos;
        let mut names: Vec<String> = Vec::new();
        assert(texts(names@) =~= Seq::<Seq<char>>::empty());
        if self.peek() == Tag::RParen {
            return names;
        }
        self.take_param(&mut names);
        while self.peek() == Tag::Comma
            invariant
                self@.source == cx,
                q <= self@.pos,
                params_rest(cx, q, texts(names@), (self@.pos - q) as nat) == parse_params(cx, q),
            decreases cx.left(self@.pos),
        {
            self.advance();
            self.take_param(&mut names);
        }
        names
    }

    /// The head of the declaration of a function: the keyword, the name, and
    /// the parameters in parentheses.
    fn parse_signature(&mut self) -> (r: Result<(String, Vec<String>), ParseError>)
        ensures
            final(self)@.source == old(self)@.source,
            match parse_signature(old(self)@.source, old(self)@.pos) {
                Ok(head) => r is Ok && r->Ok_0.0@ == head.value.name && texts(r->Ok_0.1@)
                    == head.value.params && final(self)@.pos == old(self)@.pos + 1 + head.more
                    && old(self)@.pos < old(self)@.source.tokens.len(),
                Err(e) => r == Err::<(String, Vec<String>), ParseError>(e),
            },
    {
        reveal(parse_signature);
        self.consume(Tag::Func)?;
        let name = match self.take_name() {
            Some(name) => name,
            None => {
                return Err(self.error(ParseErrorKind::ExpectedFunctionName));
            },
        };
        self.consume(Tag::LParen)?;
        let params = self.parse_params();
        self.consume(Tag::RParen)?;
        Ok((name, params))
    }

    /// The declaration of a function: its head and its body.
    #[verifier::rlimit(50)]
    fn parse_function(&mut self) -> (r: Result<Stmt, ParseError>)
        ensures
            final(self)@.source == old(self)@.source,
            parsed_stmt(
                parse_function(old(self)@.source, old(self)@.pos),
                r,
                old(self)@.pos,
                final(self)@.pos,
            ),
        decreases old(self)@.source.left(old(self)@.pos), 11nat,
    {
        let (name, params) = self.parse_signature()?;
        let body = self.parse_block()?;
        Ok(Stmt::FuncDecl(name, params, body))
    }

    /// A block: statements in braces.
    #[verifier::rlimit(50)]
    fn parse_block(&mut self) -> (r: Result<Vec<Stmt>, ParseError>)
        ensures
            final(self)@.source == old(self)@.source,
            parsed_block(
                parse_block(old(self)@.source, old(self)@.pos),
                r,
                old(self)@.pos,
                final(self)@.pos,
            ),
        decreases old(self)@.source.left(old(self)@.pos), 13nat,
    {
        let ghost cx = self@.source;
        let ghost p = self@.pos;
        self.consume(Tag::LBrace)?;
        let mut stmts: Vec<Stmt> = Vec::new();
        assert(stmt_models(stmts@) =~= Seq::<StmtModel>::empty());
        loop
            invariant_except_break
                block_rest(cx, p, (self@.pos - p - 1) as nat, stmt_models(stmts@)) == parse_block(
                    cx,
                    p,
                ),
            invariant
                self@.source == cx,
                cx == old(self)@.source,
                p == old(self)@.pos,
                p < self@.pos,
            ensures
                parsed_block(
                    parse_block(cx, p),
                    Ok::<Vec<Stmt>, ParseError>(stmts),
                    p,
                    self@.pos,
                ),
            decreases cx.left(self@.pos),
        {
            let t = self.peek();
            if t == Tag::RBrace {
                self.advance();
                break ;
            }
            if t == Tag::EOF {
                return Err(self.error(ParseErrorKind::Expected(Tag::RBrace)));
            }
            let stmt = self.parse_stmt()?;
            proof {
                assert(stmt_models(stmts@.push(stmt)) =~= stmt_models(stmts@).push(stmt@));
            }
            stmts.push(stmt);
        }
        Ok(stmts)
    }

    /// A condition in parentheses.
    fn parse_condition(&mut self) -> (r: Result<Expr, ParseError>)
        ensures
            final(self)@.source == old(self)@.source,
            match parse_condition(old(self)@.source, old(self)@.pos) {
                Ok(t) => r is Ok && r->Ok_0@ == t.value && final(self)@.pos == old(self)@.pos
                    + t.taken,
                Err(e) => r == Err::<Expr, ParseError>(e),
            },
    {
        reveal(parse_condition);
        self.consume(Tag::LParen)?;
        let condition = self.parse_expr()?;
        self.consume(Tag::RParen)?;
        Ok(condition)
    }

    /// The position of the first module with the given path.
    fn find_module(&self, path: &str) -> (r: Option<usize>)
        ensures
            match r {
                Some(i) => position(module_paths(self@.source.modules), path@) == Some(i as int)
                    && i < self@.source.modules.len(),
                None => position(module_paths(self@.source.modules), path@) is None,
            },
    {
        let ghost paths = module_paths(self@.source.modules);
        let mut i: usize = 0;
        while i < self.modules.len()
            invariant
                i <= self.modules.len(),
                paths == module_paths(self@.source.modules),
                paths.len() == self.modules@.len(),
                forall|j: int| 0 <= j < i ==> paths[j] != path@,
            decreases self.modules.len() - i,
        {
            assert(paths[i as int] == self.modules@[i as int].path@);
            if same_text(self.modules[i].path.as_str(), path) {
                proof {
                    lemma_position(paths, path@);
                }
                return Some(i);
            }
            i += 1;
        }
        proof {
            lemma_position(paths, path@);
        }
        None
    }

    /// The number that the next token holds, if it is a number.
    fn number(&self) -> (r: Option<i32>)
        ensures
            match self@.source.kind(self@.pos) {
                TokenKind::Number(n) => r == Some(n),
                _ => r is None,
            },
    {
        proof {
            use_type_invariant(self);
        }
        if self.pos < self.tokens.len() {
            if let TokenType::Number(n) = &self.tokens[self.pos].kind {
                return Some(*n);
            }
        }
        None
    }

    /// A copy of the string that the next token holds, if it is a string
    /// literal.
    fn string(&self) -> (r: Option<String>)
        ensures
            match self@.source.kind(self@.pos) {
                TokenKind::String(s) => r is Some && r->Some_0@ == s,
                _ => r is None,
            },
    {
        proof {
            use_type_invariant(self);
        }
        if self.pos < self.tokens.len() {
            if let TokenType::String(s) = &self.tokens[self.pos].kind {
                return Some(s.clone());
            }
        }
        None
    }

    /// An import: the statements of the module with the given path, as a
    /// block.
    fn parse_import(&mut self) -> (r: Result<Stmt, ParseError>)
        requires
            old(self)@.source.tag(old(self)@.pos) == Tag::Import,
        ensures
            final(self)@.source == old(self)@.source,
            parsed_stmt(
                parse_import(old(self)@.source, old(self)@.pos),
                r,
                old(self)@.pos,
                final(self)@.pos,
            ),
    {
        reveal(parse_import);
        self.advance();
        let path = match self.string() {
            Some(path) => path,
            None => {
                return Err(self.error(ParseErrorKind::InvalidImport));
            },
        };
        let unresolved = self.error(ParseErrorKind::UnresolvedImport);
        self.advance();
        self.consume(Tag::Semicolon)?;
        match self.find_module(path.as_str()) {
            Some(i) => Ok(Stmt::BlockStmt(copy_stmts(&self.modules[i].body))),
            None => Err(unresolved),
        }
    }

    /// A return, with a value or without.
    fn parse_return(&mut self) -> (r: Result<Stmt, ParseError>)
        requires
            old(self)@.source.tag(old(self)@.pos) == Tag::Return,
        ensures
            final(self)@.source == old(self)@.source,
            parsed_stmt(
                parse_return(old(self)@.source, old(self)@.pos),
                r,
                old(self)@.pos,
                final(self)@.pos,
            ),
    {
        reveal(parse_return);
        self.advance();
        if self.peek() == Tag::Semicolon {
            self.advance();
            return Ok(Stmt::ReturnStmt(None));
        }
        let value = self.parse_expr()?;
        self.consume(Tag::Semicolon)?;
        Ok(Stmt::ReturnStmt(Some(value)))
    }

    /// The declaration of a variable.
    fn parse_var(&mut self) -> (r: Result<Stmt, ParseError>)
        requires
            old(self)@.source.tag(old(self)@.pos) == Tag::Var,
        ensures
            final(self)@.source == old(self)@.source,
            parsed_stmt(
                parse_var(old(self)@.source, old(self)@.pos),
                r,
                old(self)@.pos,
                final(self)@.pos,
            ),
    {
        reveal(parse_var);
        self.advance();
        let name = match self.take_name() {
            Some(name) => name,
            None => {
                return Err(self.error(ParseErrorKind::ExpectedVariableName));
            },
        };
        self.consume(Tag::Assign)?;
        let value = self.parse_expr()?;
        self.consume(Tag::Semicolon)?;
        Ok(Stmt::VarDecl(name, value))
    }

    /// A print statement.
    fn parse_print(&mut self) -> (r: Result<Stmt, ParseError>)
        requires
            old(self)@.source.tag(old(self)@.pos) == Tag::Print,
        ensures
            final(self)@.source == old(self)@.source,
            parsed_stmt(
                parse_print(old(self)@.source, old(self)@.pos),
                r,
                old(self)@.pos,
                final(self)@.pos,
            ),
    {
        reveal(parse_print);
        self.advance();
        self.consume(Tag::LParen)?;
        let value = self.parse_expr()?;
        self.consume(Tag::RParen)?;
        self.consume(Tag::Semicolon)?;
        Ok(Stmt::Print(value))
    }

    /// An assignment, to a variable or to a field, or an expression that
    /// stands as a statement.
    fn parse_simple(&mut self) -> (r: Result<Stmt, ParseError>)
        ensures
            final(self)@.source == old(self)@.source,
            parsed_stmt(
                parse_simple(old(self)@.source, old(self)@.pos),
                r,
                old(self)@.pos,
                final(self)@.pos,
            ),
    {
        reveal(parse_simple);
        let invalid = self.error(ParseErrorKind::InvalidAssignmentTarget);
        let target = self.parse_expr()?;
        if self.peek() == Tag::Assign {
            self.advance();
            let value = self.parse_expr()?;
            self.consume(Tag::Semicolon)?;
            match target {
                Expr::Variable(name) => Ok(Stmt::Assignment(name, value)),
                Expr::Get(object, field) => Ok(
                    Stmt::ExprStmt(Expr::Assign(object, field, Box::new(value))),
                ),
                _ => Err(invalid),
            }
        } else {
            self.consume(Tag::Semicolon)?;
            Ok(Stmt::ExprStmt(target))
        }
    }

    /// What follows the first block of a conditional: nothing, or `else` and
    /// a block, or `else` and a conditional.
    #[verifier::rlimit(50)]
    fn parse_else(&mut self) -> (r: Result<Option<Vec<Stmt>>, ParseError>)
        ensures
            final(self)@.source == old(self)@.source,
            match parse_else(old(self)@.source, old(self)@.pos) {
                Ok(t) => r is Ok && final(self)@.pos == old(self)@.pos + t.taken && match t.value {
                    Some(block) => r->Ok_0 is Some && stmt_models(r->Ok_0->Some_0@) == block,
                    None => r->Ok_0 is None,
                },
                Err(e) => r == Err::<Option<Vec<Stmt>>, ParseError>(e),
            },
        decreases old(self)@.source.left(old(self)@.pos), 13nat,
    {
        if self.peek() != Tag::Else {
            return Ok(None);
        }
        self.advance();
        if self.peek() == Tag::If {
            let nested = self.parse_stmt()?;
            let mut second: Vec<Stmt> = Vec::new();
            second.push(nested);
            assert(stmt_models(second@) =~= seq![nested@]);
            Ok(Some(second))
        } else {
            let second = self.parse_block()?;
            Ok(Some(second))
        }
    }

    /// A conditional; `else if` stands for an `else` block that holds only
    /// the conditional that follows.
    #[verifier::rlimit(50)]
    fn parse_if(&mut self) -> (r: Result<Stmt, ParseError>)
        ensures
            final(self)@.source == old(self)@.source,
            parsed_stmt(
                parse_if(old(self)@.source, old(self)@.pos),
                r,
                old(self)@.pos,
                final(self)@.pos,
            ),
        decreases old(self)@.source.left(old(self)@.pos), 11nat,
    {
        self.consume(Tag::If)?;
        let condition = self.parse_condition()?;
        let first = self.parse_block()?;
        let second = self.parse_else()?;
        Ok(Stmt::IfStmt(condition, first, second))
    }

    /// A loop.
    #[verifier::rlimit(50)]
    fn parse_while(&mut self) -> (r: Result<Stmt, ParseError>)
        ensures
            final(self)@.source == old(self)@.source,
            parsed_stmt(
                parse_while(old(self)@.source, old(self)@.pos),
                r,
                old(self)@.pos,
                final(self)@.pos,
            ),
        decreases old(self)@.source.left(old(self)@.pos), 11nat,
    {
        self.consume(Tag::While)?;
        let condition = self.parse_condition()?;
        let body = self.parse_block()?;
        Ok(Stmt::WhileStmt(condition, body))
    }

    /// The first part of the header of a `for` statement: a statement, or
    /// only a semicolon.
    fn parse_for_init(&mut self) -> (r: Result<Vec<Stmt>, ParseError>)
        ensures
            final(self)@.source == old(self)@.source,
            match parse_for_init(old(self)@.source, old(self)@.pos) {
                Ok(t) => r is Ok && stmt_models(r->Ok_0@) == t.value && final(self)@.pos == old(
                    self,
                )@.pos + t.taken,
                Err(e) => r == Err::<Vec<Stmt>, ParseError>(e),
            },
        decreases old(self)@.source.left(old(self)@.pos), 13nat,
    {
        let mut init: Vec<Stmt> = Vec::new();
        assert(stmt_models(init@) =~= Seq::<StmtModel>::empty());
        if self.peek() == Tag::Semicolon {
            self.advance();
        } else {
            let first = self.parse_stmt()?;
            init.push(first);
            assert(stmt_models(init@) =~= seq![first@]);
        }
        Ok(init)
    }

    /// The second part of the header of a `for` statement: a condition or
    /// nothing, and a semicolon.
    fn parse_for_condition(&mut self) -> (r: Result<Expr, ParseError>)
        ensures
            final(self)@.source == old(self)@.source,
            match parse_for_condition(old(self)@.source, old(self)@.pos) {
                Ok(t) => r is Ok && r->Ok_0@ == t.value && final(self)@.pos == old(self)@.pos
                    + t.taken,
                Err(e) => r == Err::<Expr, ParseError>(e),
            },
    {
        reveal(parse_for_condition);
        if self.peek() == Tag::Semicolon {
            self.advance();
            return Ok(Expr::Number(1));
        }
        let condition = self.parse_expr()?;
        self.consume(Tag::Semicolon)?;
        Ok(condition)
    }

    /// The last part of the header of a `for` statement: an assignment or
    /// nothing, and the closing parenthesis.
    fn parse_for_step(&mut self) -> (r: Result<Vec<Stmt>, ParseError>)
        ensures
            final(self)@.source == old(self)@.source,
            match parse_for_step(old(self)@.source, old(self)@.pos) {
                Ok(t) => r is Ok && stmt_models(r->Ok_0@) == t.value && final(self)@.pos == old(
                    self,
                )@.pos + t.taken,
                Err(e) => r == Err::<Vec<Stmt>, ParseError>(e),
            },
    {
        reveal(parse_for_step);
        let mut step: Vec<Stmt> = Vec::new();
        assert(stmt_models(step@) =~= Seq::<StmtModel>::empty());
        match self.take_name() {
            Some(name) => {
                self.consume(Tag::Assign)?;
                let value = self.parse_expr()?;
                self.consume(Tag::RParen)?;
                let stmt = Stmt::Assignment(name, value);
                step.push(stmt);
                assert(stmt_models(step@) =~= seq![stmt@]);
            },
            None => {
                self.consume(Tag::RParen)?;
            },
        }
        Ok(step)
    }

    /// A `for` statement. It stands for its first part followed by a loop
    /// whose body ends with its last part.
    #[verifier::rlimit(50)]
    fn parse_for(&mut self) -> (r: Result<Stmt, ParseError>)
        ensures
            final(self)@.source == old(self)@.source,
            parsed_stmt(
                parse_for(old(self)@.source, old(self)@.pos),
                r,
                old(self)@.pos,
                final(self)@.pos,
            ),
        decreases old(self)@.source.left(old(self)@.pos), 11nat,
    {
        self.consume(Tag::For)?;
        self.consume(Tag::LParen)?;
        let mut init = self.parse_for_init()?;
        let condition = self.parse_for_condition()?;
        let mut step = self.parse_for_step()?;
        let mut body = self.parse_block()?;
        let ghost body_model = stmt_models(body@);
        let ghost step_model = stmt_models(step@);
        body.append(&mut step);
        assert(stmt_models(body@) =~= body_model + step_model);
        let ghost init_model = stmt_models(init@);
        let looped = Stmt::WhileStmt(condition, body);
        init.push(looped);
        assert(stmt_models(init@) =~= init_model.push(looped@));
        Ok(Stmt::BlockStmt(init))
    }

    /// The members of a class and the closing brace; `p` is where the
    /// declaration of the class began.
    #[verifier::rlimit(50)]
    fn parse_members(&mut self, Ghost(p): Ghost<nat>) -> (r: Result<
        (Vec<String>, Vec<Stmt>),
        ParseError,
    >)
        requires
            p < old(self)@.pos,
        ensures
            final(self)@.source == old(self)@.source,
            match parse_members(
                old(self)@.source,
                p,
                (old(self)@.pos - p - 1) as nat,
                Members { fields: Seq::empty(), methods: Seq::empty() },
            ) {
                Ok(m) => r is Ok && texts(r->Ok_0.0@) == m.value.fields && stmt_models(
                    r->Ok_0.1@,
                ) == m.value.methods && final(self)@.pos == p + 1 + m.more,
                Err(e) => r == Err::<(Vec<String>, Vec<Stmt>), ParseError>(e),
            },
        decreases old(self)@.source.left(old(self)@.pos), 13nat,
    {
        let ghost cx = self@.source;
        let ghost start = self@.pos;
        let mut fields: Vec<String> = Vec::new();
        let mut methods: Vec<Stmt> = Vec::new();
        assert(texts(fields@) =~= Seq::<Seq<char>>::empty());
        assert(stmt_models(methods@) =~= Seq::<StmtModel>::empty());
        loop
            invariant_except_break
                parse_members(
                    cx,
                    p,
                    (self@.pos - p - 1) as nat,
                    Members { fields: texts(fields@), methods: stmt_models(methods@) },
                ) == parse_members(
                    cx,
                    p,
                    (start - p - 1) as nat,
                    Members { fields: Seq::empty(), methods: Seq::empty() },
                ),
            invariant
                self@.source == cx,
                cx == old(self)@.source,
                start == old(self)@.pos,
                p < start <= self@.pos,
            ensures
                parse_members(
                    cx,
                    p,
                    (start - p - 1) as nat,
                    Members { fields: Seq::empty(), methods: Seq::empty() },
                ) == Ok::<Parsed<Members>, ParseError>(
                    Parsed {
                        value: Members { fields: texts(fields@), methods: stmt_models(methods@) },
                        more: (self@.pos - p - 1) as nat,
                    },
                ),
            decreases cx.left(self@.pos),
        {
            match self.peek() {
                Tag::RBrace => {
                    self.advance();
                    break ;
                },
                Tag::EOF => {
                    return Err(self.error(ParseErrorKind::Expected(Tag::RBrace)));
                },
                Tag::Var => {
                    self.advance();
                    let field = match self.take_name() {
                        Some(field) => field,
                        None => {
                            return Err(self.error(ParseErrorKind::ExpectedFieldName));
                        },
                    };
                    self.consume(Tag::Semicolon)?;
                    assert(texts(fields@.push(field)) =~= texts(fields@).push(field@));
                    fields.push(field);
                },
                Tag::Func => {
                    let method = self.parse_function()?;
                    assert(stmt_models(methods@.push(method)) =~= stmt_models(methods@).push(
                        method@,
                    ));
                    methods.push(method);
                },
                _ => {
                    return Err(self.error(ParseErrorKind::InvalidClassMember));
                },
            }
        }
        Ok((fields, methods))
    }

    /// The declaration of a class: its name, and in braces its fields and
    /// its methods.
    #[verifier::rlimit(50)]
    fn parse_class(&mut self) -> (r: Result<Stmt, ParseError>)
        ensures
            final(self)@.source == old(self)@.source,
            parsed_stmt(
                parse_class(old(self)@.source, old(self)@.pos),
                r,
                old(self)@.pos,
                final(self)@.pos,
            ),
        decreases old(self)@.source.left(old(self)@.pos), 11nat,
    {
        let ghost p = self@.pos;
        self.consume(Tag::Class)?;
        let name = match self.take_name() {
            Some(name) => name,
            None => {
                return Err(self.error(ParseErrorKind::ExpectedClassName));
            },
        };
        self.consume(Tag::LBrace)?;
        let (fields, methods) = self.parse_members(Ghost(p))?;
        Ok(Stmt::ClassDecl(name, fields, methods))
    }

    /// A statement.
    fn parse_stmt(&mut self) -> (r: Result<Stmt, ParseError>)
        ensures
            final(self)@.source == old(self)@.source,
            parsed_stmt(
                parse_stmt(old(self)@.source, old(self)@.pos),
                r,
                old(self)@.pos,
                final(self)@.pos,
            ),
        decreases old(self)@.source.left(old(self)@.pos), 12nat,
    {
        match self.peek() {
            Tag::Class => self.parse_class(),
            Tag::Import => self.parse_import(),
            Tag::Func => self.parse_function(),
            Tag::Return => self.parse_return(),
            Tag::Var => self.parse_var(),
            Tag::Print => self.parse_print(),
            Tag::If => self.parse_if(),
            Tag::While => self.parse_while(),
            Tag::For => self.parse_for(),
            _ => self.parse_simple(),
        }
    }

    /// Parses statements up to the end marker.
    fn parse_all(&mut self) -> (r: Result<Vec<Stmt>, ParseError>)
        ensures
            final(self)@.source == old(self)@.source,
            match parse_program(old(self)@.source, old(self)@.pos, 0, Seq::empty()) {
                Ok(t) => r is Ok && stmt_models(r->Ok_0@) == t.value && final(self)@.pos == old(
                    self,
                )@.pos + t.taken,
                Err(e) => r == Err::<Vec<Stmt>, ParseError>(e),
            },
    {
        let ghost cx = self@.source;
        let ghost q = self@.pos;
        let mut stmts: Vec<Stmt> = Vec::new();
        assert(stmt_models(stmts@) =~= Seq::<StmtModel>::empty());
        while self.peek() != Tag::EOF
            invariant
                self@.source == cx,
                cx == old(self)@.source,
                q == old(self)@.pos,
                q <= self@.pos,
                parse_program(cx, q, (self@.pos - q) as nat, stmt_models(stmts@)) == parse_program(
                    cx,
                    q,
                    0,
                    Seq::empty(),
                ),
            decreases cx.left(self@.pos),
        {
            let stmt = self.parse_stmt()?;
            proof {
                assert(stmt_models(stmts@.push(stmt)) =~= stmt_models(stmts@).push(stmt@));
            }
            stmts.push(stmt);
        }
        Ok(stmts)
    }

    /// Parses the rest of the tokens as a program: statements up to the end
    /// marker, at which the parser then stands. A parser that fails stays
    /// where it was.
    pub fn parse(&mut self) -> (r: Result<Vec<Stmt>, ParseError>)
        ensures
            final(self)@.source == old(self)@.source,
            match parse_program(old(self)@.source, old(self)@.pos, 0, Seq::empty()) {
                Ok(t) => r is Ok && stmt_models(r->Ok_0@) == t.value && final(self)@.pos == old(
                    self,
                )@.pos + t.taken,
                Err(e) => r == Err::<Vec<Stmt>, ParseError>(e) && final(self)@ == old(self)@,
            },
    {
        proof {
            use_type_invariant(&*self);
        }
        let start = self.pos;
        let ghost tokens = token_views(self.tokens@);
        match self.parse_all() {
            Ok(stmts) => Ok(stmts),
            Err(e) => {
                assert(self@.source.tokens == tokens);
                self.pos = start;
                Err(e)
            },
        }
    }
}

/// The paths that a sequence of tokens imports: the content of each string
/// literal that follows the keyword `import`, in order.
pub open spec fn imported(tokens: Seq<TokenModel>) -> Seq<Seq<char>>
    decreases tokens.len(),
{
    if tokens.len() < 2 {
        Seq::empty()
    } else {
        let before = imported(tokens.drop_last());
        match tokens.last().kind {
            TokenKind::String(path) => if tokens[tokens.len() - 2].kind is Import {
                before.push(path)
            } else {
                before
            },
            _ => before,
        }
    }
}

/// The paths that `tokens` imports. The modules with these paths are what
/// a parser of the tokens needs.
pub fn import_paths(tokens: &Vec<Token>) -> (paths: Vec<String>)
    ensures
        texts(paths@) == imported(token_views(tokens@)),
{
    let ghost views = token_views(tokens@);
    let mut paths: Vec<String> = Vec::new();
    assert(texts(paths@) =~= Seq::<Seq<char>>::empty());
    if tokens.len() < 2 {
        return paths;
    }
    assert(imported(views.take(1)) =~= Seq::<Seq<char>>::empty());
    let mut i: usize = 1;
    while i < tokens.len()
        invariant
            1 <= i <= tokens.len(),
            views == token_views(tokens@),
            texts(paths@) == imported(views.take(i as int)),
        decreases tokens.len() - i,
    {
        proof {
            let next = views.take(i + 1);
            assert(next.drop_last() =~= views.take(i as int));
            assert(next.last() == tokens@[i as int]@);
            assert(next[next.len() - 2] == tokens@[i - 1]@);
        }
        if let TokenType::Import = tokens[i - 1].kind {
            if let TokenType::String(path) = &tokens[i].kind {
                assert(texts(paths@.push(*path)) =~= texts(paths@).push(path@));
                paths.push(path.clone());
            }
        }
        i += 1;
    }
    assert(views.take(i as int) =~= views);
    paths
}

} // verus!
