use aura_lang::ast::{Expr, Stmt};
use aura_lang::error::{ParseError, ParseErrorKind};
use aura_lang::lexer::Lexer;
use aura_lang::parser::{import_paths, Module, Parser};
use aura_lang::token::{Tag, Token, TokenType};

fn tokens(source: &str) -> Vec<Token> {
    Lexer::new(source.to_string()).tokenize().unwrap()
}

fn parse(source: &str) -> Result<Vec<Stmt>, ParseError> {
    Parser::new(tokens(source)).parse()
}

fn parse_one(source: &str) -> Stmt {
    let mut stmts = parse(source).unwrap();
    assert_eq!(stmts.len(), 1);
    stmts.remove(0)
}

fn expr(source: &str) -> Expr {
    match parse_one(&format!("print({});", source)) {
        Stmt::Print(e) => e,
        other => panic!("not a print: {:?}", other),
    }
}

fn failure(source: &str) -> ParseError {
    parse(source).unwrap_err()
}

fn num(n: i32) -> Expr {
    Expr::Number(n)
}

fn var(name: &str) -> Expr {
    Expr::Variable(name.to_string())
}

fn bin(left: Expr, op: TokenType, right: Expr) -> Expr {
    Expr::Binary(Box::new(left), op, Box::new(right))
}

#[test]
fn empty_program_has_no_statements() {
    assert_eq!(parse("").unwrap(), vec![]);
    assert_eq!(Parser::new(Vec::new()).parse().unwrap(), vec![]);
}

#[test]
fn multiplication_binds_tighter_than_addition_and_comparison_loosest() {
    assert_eq!(
        expr("1 + 2 * 3 < 4"),
        bin(
            bin(num(1), TokenType::Plus, bin(num(2), TokenType::Mul, num(3))),
            TokenType::Lt,
            num(4)
        )
    );
}

#[test]
fn operators_of_one_level_associate_to_the_left() {
    assert_eq!(
        expr("1 - 2 - 3"),
        bin(bin(num(1), TokenType::Minus, num(2)), TokenType::Minus, num(3))
    );
    assert_eq!(
        expr("8 / 4 * 2"),
        bin(bin(num(8), TokenType::Div, num(4)), TokenType::Mul, num(2))
    );
    assert_eq!(
        expr("1 == 2 != 3"),
        bin(bin(num(1), TokenType::Eq, num(2)), TokenType::Neq, num(3))
    );
}

#[test]
fn parentheses_group() {
    assert_eq!(
        expr("(1 + 2) * 3"),
        bin(bin(num(1), TokenType::Plus, num(2)), TokenType::Mul, num(3))
    );
}

#[test]
fn every_comparison_is_an_operator() {
    for (text, op) in [
        ("==", TokenType::Eq),
        ("!=", TokenType::Neq),
        ("<", TokenType::Lt),
        (">", TokenType::Gt),
        ("<=", TokenType::Lte),
        (">=", TokenType::Gte),
    ] {
        assert_eq!(expr(&format!("a {} b", text)), bin(var("a"), op, var("b")));
    }
}

#[test]
fn atoms_are_parsed() {
    assert_eq!(expr("42"), num(42));
    assert_eq!(expr("\"hi\""), Expr::String("hi".to_string()));
    assert_eq!(expr("x"), var("x"));
    assert_eq!(expr("new P()"), Expr::New("P".to_string()));
    assert_eq!(expr("[]"), Expr::ArrayLiteral(vec![]));
    assert_eq!(expr("[1, x, 2 + 3]"), Expr::ArrayLiteral(vec![
        num(1),
        var("x"),
        bin(num(2), TokenType::Plus, num(3))
    ]));
}

#[test]
fn calls_indices_and_members() {
    assert_eq!(expr("f()"), Expr::Call("f".to_string(), vec![]));
    assert_eq!(expr("f(1, g(2))"), Expr::Call("f".to_string(), vec![
        num(1),
        Expr::Call("g".to_string(), vec![num(2)])
    ]));
    assert_eq!(expr("a[i + 1]"), Expr::IndexAccess(
        "a".to_string(),
        Box::new(bin(var("i"), TokenType::Plus, num(1)))
    ));
    assert_eq!(expr("p.x"), Expr::Get(Box::new(var("p")), "x".to_string()));
    assert_eq!(
        expr("p.q.x"),
        Expr::Get(Box::new(Expr::Get(Box::new(var("p")), "q".to_string())), "x".to_string())
    );
    assert_eq!(
        expr("p.m(1, 2)"),
        Expr::MethodCall(Box::new(var("p")), "m".to_string(), vec![num(1), num(2)])
    );
    assert_eq!(
        expr("new P().m().x"),
        Expr::Get(
            Box::new(Expr::MethodCall(
                Box::new(Expr::New("P".to_string())),
                "m".to_string(),
                vec![]
            )),
            "x".to_string()
        )
    );
}

#[test]
fn declaration_assignment_and_expression_statement() {
    assert_eq!(parse_one("var x = 5;"), Stmt::VarDecl("x".to_string(), num(5)));
    assert_eq!(parse_one("x = x + 1;"), Stmt::Assignment(
        "x".to_string(),
        bin(var("x"), TokenType::Plus, num(1))
    ));
    assert_eq!(parse_one("f(1);"), Stmt::ExprStmt(Expr::Call("f".to_string(), vec![num(1)])));
    assert_eq!(
        parse_one("p.x = 7;"),
        Stmt::ExprStmt(Expr::Assign(Box::new(var("p")), "x".to_string(), Box::new(num(7))))
    );
}

#[test]
fn return_with_and_without_a_value() {
    assert_eq!(parse_one("return;"), Stmt::ReturnStmt(None));
    assert_eq!(parse_one("return 1 + 2;"), Stmt::ReturnStmt(Some(bin(
        num(1),
        TokenType::Plus,
        num(2)
    ))));
}

#[test]
fn conditionals_with_and_without_else() {
    assert_eq!(
        parse_one("if (a) { print(1); }"),
        Stmt::IfStmt(var("a"), vec![Stmt::Print(num(1))], None)
    );
    assert_eq!(
        parse_one("if (a) { } else { print(0); }"),
        Stmt::IfStmt(var("a"), vec![], Some(vec![Stmt::Print(num(0))]))
    );
    assert_eq!(
        parse_one("if (a) { } else if (b) { print(2); } else { }"),
        Stmt::IfStmt(
            var("a"),
            vec![],
            Some(vec![Stmt::IfStmt(var("b"), vec![Stmt::Print(num(2))], Some(vec![]))])
        )
    );
}

#[test]
fn while_loop_is_parsed() {
    assert_eq!(
        parse_one("while (i < 3) { i = i + 1; }"),
        Stmt::WhileStmt(bin(var("i"), TokenType::Lt, num(3)), vec![Stmt::Assignment(
            "i".to_string(),
            bin(var("i"), TokenType::Plus, num(1))
        )])
    );
}

#[test]
fn for_stands_for_a_block_with_a_loop() {
    assert_eq!(
        parse_one("for (var i = 0; i < 3; i = i + 1) { print(i); }"),
        Stmt::BlockStmt(vec![
            Stmt::VarDecl("i".to_string(), num(0)),
            Stmt::WhileStmt(bin(var("i"), TokenType::Lt, num(3)), vec![
                Stmt::Print(var("i")),
                Stmt::Assignment("i".to_string(), bin(var("i"), TokenType::Plus, num(1))),
            ]),
        ])
    );
}

#[test]
fn for_with_empty_parts_loops_on_one() {
    assert_eq!(
        parse_one("for (;;) { }"),
        Stmt::BlockStmt(vec![Stmt::WhileStmt(num(1), vec![])])
    );
    assert_eq!(
        parse_one("for (; i < 2;) { f(); }"),
        Stmt::BlockStmt(vec![Stmt::WhileStmt(bin(var("i"), TokenType::Lt, num(2)), vec![
            Stmt::ExprStmt(Expr::Call("f".to_string(), vec![]))
        ])])
    );
}

#[test]
fn functions_with_and_without_parameters() {
    assert_eq!(
        parse_one("func f() { }"),
        Stmt::FuncDecl("f".to_string(), vec![], vec![])
    );
    assert_eq!(
        parse_one("func add(a, b) { return a + b; }"),
        Stmt::FuncDecl("add".to_string(), vec!["a".to_string(), "b".to_string()], vec![
            Stmt::ReturnStmt(Some(bin(var("a"), TokenType::Plus, var("b"))))
        ])
    );
}

#[test]
fn a_parameter_that_is_no_name_is_passed_over() {
    assert_eq!(
        parse_one("func f(1, x, 2) { }"),
        Stmt::FuncDecl("f".to_string(), vec!["x".to_string()], vec![])
    );
}

#[test]
fn classes_with_fields_and_methods() {
    assert_eq!(
        parse_one("class P { }"),
        Stmt::ClassDecl("P".to_string(), vec![], vec![])
    );
    assert_eq!(
        parse_one("class P { var x; var y; }"),
        Stmt::ClassDecl("P".to_string(), vec!["x".to_string(), "y".to_string()], vec![])
    );
    assert_eq!(
        parse_one("class P { var x; func get() { return this.x; } var y; }"),
        Stmt::ClassDecl("P".to_string(), vec!["x".to_string(), "y".to_string()], vec![
            Stmt::FuncDecl("get".to_string(), vec![], vec![Stmt::ReturnStmt(Some(Expr::Get(
                Box::new(var("this")),
                "x".to_string()
            )))])
        ])
    );
}

#[test]
fn statements_follow_each_other() {
    assert_eq!(parse("var x = 1; print(x); x = 2;").unwrap().len(), 3);
}

#[test]
fn import_gives_the_statements_of_the_module() {
    let module = Module {
        path: "lib.aur".to_string(),
        body: parse("var a = 1; func f(x) { return x; }").unwrap(),
    };
    let other = Module { path: "other.aur".to_string(), body: parse("print(0);").unwrap() };
    let source = tokens("import \"lib.aur\"; print(a);");
    assert_eq!(import_paths(&source), vec!["lib.aur".to_string()]);
    let program = Parser::with_modules(source, vec![other, module]).parse().unwrap();
    assert_eq!(program, vec![
        Stmt::BlockStmt(parse("var a = 1; func f(x) { return x; }").unwrap()),
        Stmt::Print(var("a")),
    ]);
}

#[test]
fn import_paths_are_listed_in_order() {
    let source = tokens("import \"a\"; var s = \"b\"; import \"c\"; import x;");
    assert_eq!(import_paths(&source), vec!["a".to_string(), "c".to_string()]);
    assert_eq!(import_paths(&tokens("")), Vec::<String>::new());
}

#[test]
fn import_without_a_module_fails() {
    assert_eq!(failure("\nimport \"lib.aur\";"), ParseError {
        kind: ParseErrorKind::UnresolvedImport,
        line: 2
    });
    assert_eq!(failure("import lib;"), ParseError { kind: ParseErrorKind::InvalidImport, line: 1 });
    assert_eq!(failure("import \"lib\""), ParseError {
        kind: ParseErrorKind::Expected(Tag::Semicolon),
        line: 1
    });
}

#[test]
fn missing_tokens_are_reported_with_their_line() {
    assert_eq!(failure("var x = 1"), ParseError {
        kind: ParseErrorKind::Expected(Tag::Semicolon),
        line: 1
    });
    assert_eq!(failure("var x\n1;"), ParseError {
        kind: ParseErrorKind::Expected(Tag::Assign),
        line: 2
    });
    assert_eq!(failure("print 1;"), ParseError {
        kind: ParseErrorKind::Expected(Tag::LParen),
        line: 1
    });
    assert_eq!(failure("print(1;"), ParseError {
        kind: ParseErrorKind::Expected(Tag::RParen),
        line: 1
    });
    assert_eq!(failure("if (a) print(1);"), ParseError {
        kind: ParseErrorKind::Expected(Tag::LBrace),
        line: 1
    });
    assert_eq!(failure("while (a) {\nprint(1);\n"), ParseError {
        kind: ParseErrorKind::Expected(Tag::RBrace),
        line: 3
    });
    assert_eq!(failure("var a = [1, 2;"), ParseError {
        kind: ParseErrorKind::Expected(Tag::RBracket),
        line: 1
    });
    assert_eq!(failure("for (;; 1) { }"), ParseError {
        kind: ParseErrorKind::Expected(Tag::RParen),
        line: 1
    });
    assert_eq!(failure("class P { var x;"), ParseError {
        kind: ParseErrorKind::Expected(Tag::RBrace),
        line: 1
    });
}

#[test]
fn missing_names_are_reported() {
    assert_eq!(failure("var 1 = 2;").kind, ParseErrorKind::ExpectedVariableName);
    assert_eq!(failure("func (a) { }").kind, ParseErrorKind::ExpectedFunctionName);
    assert_eq!(failure("class { }").kind, ParseErrorKind::ExpectedClassName);
    assert_eq!(failure("class P { var 1; }").kind, ParseErrorKind::ExpectedFieldName);
    assert_eq!(failure("print(new 1());").kind, ParseErrorKind::ExpectedClassName);
    assert_eq!(failure("print(p.1);").kind, ParseErrorKind::ExpectedFieldName);
}

#[test]
fn targets_that_cannot_be_lowered_are_rejected() {
    assert_eq!(failure("print(1(2));").kind, ParseErrorKind::InvalidCallTarget);
    assert_eq!(failure("print(f(1)(2));").kind, ParseErrorKind::InvalidCallTarget);
    assert_eq!(failure("print(1[0]);").kind, ParseErrorKind::InvalidIndexTarget);
    assert_eq!(failure("print(a[0][1]);").kind, ParseErrorKind::InvalidIndexTarget);
    assert_eq!(failure("1 = 2;").kind, ParseErrorKind::InvalidAssignmentTarget);
    assert_eq!(failure("f() = 2;").kind, ParseErrorKind::InvalidAssignmentTarget);
    assert_eq!(failure("class P { print(1); }").kind, ParseErrorKind::InvalidClassMember);
}

#[test]
fn a_token_that_starts_no_expression_is_unexpected() {
    assert_eq!(failure("print();"), ParseError { kind: ParseErrorKind::UnexpectedToken, line: 1 });
    assert_eq!(failure("var x = ;").kind, ParseErrorKind::UnexpectedToken);
    assert_eq!(failure("}").kind, ParseErrorKind::UnexpectedToken);
    assert_eq!(failure("var x = 1 +").kind, ParseErrorKind::UnexpectedToken);
}

#[test]
fn parsing_again_gives_no_statements() {
    let mut parser = Parser::new(tokens("print(1);"));
    assert_eq!(parser.parse().unwrap().len(), 1);
    assert_eq!(parser.parse().unwrap(), vec![]);
}

#[test]
fn tokens_without_an_end_marker_are_parsed_to_their_end() {
    let mut source = tokens("print(1);");
    source.pop();
    assert_eq!(Parser::new(source).parse().unwrap(), vec![Stmt::Print(num(1))]);
}

#[test]
fn copies_of_trees_are_equal_to_them() {
    let program = parse(
        "class P { var x; func m(a) { return a; } } var p = new P(); var q = [1, 2]; \
         if (p.m(1) < 2) { p.x = q[0]; } else { print(\"s\"); } \
         for (var i = 0; i < 2; i = i + 1) { f(i, \"t\"); }",
    )
    .unwrap();
    assert_eq!(program.len(), 5);
    for stmt in &program {
        assert_eq!(&stmt.duplicate(), stmt);
    }
}
