use aura_lang::ast::{Expr, Stmt};
use aura_lang::compiler::Compiler;
use aura_lang::error::CompileError;
use aura_lang::lexer::Lexer;
use aura_lang::parser::Parser;
use aura_lang::token::TokenType;

fn program(source: &str) -> Vec<Stmt> {
    Parser::new(Lexer::new(source.to_string()).tokenize().unwrap()).parse().unwrap()
}

fn compile(source: &str) -> Result<String, CompileError> {
    Compiler::new().compile(&program(source))
}

fn main_body(module: &str) -> String {
    let mark = "@cmd_chcp, i32 0, i32 0))\n";
    let start = module.find(mark).unwrap() + mark.len();
    let end = module.rfind("  ret i32 0\n}\n").unwrap();
    module[start..end].to_string()
}

fn functions(module: &str) -> String {
    let start = module.find("\n\n").unwrap() + 2;
    let end = module.rfind("\ndefine i32 @main()").unwrap();
    module[start..end].to_string()
}

/// The numbers of the temporaries that the module defines, in order.
fn defined_temporaries(module: &str) -> Vec<String> {
    module
        .lines()
        .filter_map(|l| l.strip_prefix("  %tmp"))
        .filter_map(|l| l.split_once(" = ").map(|(n, _)| n.to_string()))
        .collect()
}

/// The labels that the module defines, in order.
fn defined_labels(module: &str) -> Vec<String> {
    module
        .lines()
        .filter(|l| l.starts_with('L') && l.ends_with(':'))
        .map(|l| l.to_string())
        .collect()
}

#[test]
fn compiling_twice_gives_the_same_text() {
    let source = "class P { var x; func m(a) { return a + this.x; } } var p = new P(); var s = \"a\"; if (p.m(1) < 2) { print(s); } else { print(\"b\"); } while (p.x < 3) { p.x = p.x + 1; }";
    let first = compile(source).unwrap();
    let second = compile(source).unwrap();
    assert_eq!(first, second);
    let copy: Vec<Stmt> = program(source).iter().map(|s| s.duplicate()).collect();
    assert_eq!(Compiler::new().compile(&copy).unwrap(), first);
}

#[test]
fn classes_are_defined_in_the_order_of_their_registration() {
    let out = compile("class B { var x; } class A { } class C { var p; var q; var r; }").unwrap();
    assert!(out.contains(
        "%struct.B = type { i32 }\n%struct.A = type {  }\n%struct.C = type { i32, i32, i32 }\n"
    ));
}

#[test]
fn no_temporary_and_no_label_is_defined_twice() {
    let out = compile(
        "func f(a) { if (a < 1) { return 1; } return a * f(a - 1); } \
         class P { var x; func m() { while (this.x < 3) { this.x = this.x + 1; } } } \
         var p = new P(); var i = 0; \
         while (i < 2) { if (i == 0) { print(f(3)); } else { p.m(); } i = i + 1; } \
         if (i > 1) { print(\"done\"); }",
    )
    .unwrap();
    let temporaries = defined_temporaries(&out);
    let mut unique = temporaries.clone();
    unique.sort();
    unique.dedup();
    assert!(temporaries.len() > 20);
    assert_eq!(unique.len(), temporaries.len());
    let labels = defined_labels(&out);
    let mut unique = labels.clone();
    unique.sort();
    unique.dedup();
    assert_eq!(labels.len(), 13);
    assert_eq!(unique.len(), labels.len());
}

#[test]
fn counters_go_on_in_the_next_compilation() {
    let mut compiler = Compiler::new();
    let first = compiler.compile(&program("var x = 1; print(x); if (x < 2) { }")).unwrap();
    assert!(first.contains("%tmp3 = icmp"));
    assert!(first.contains("L2:\n"));
    let second = compiler.compile(&program("print(x); while (x < 2) { }")).unwrap();
    assert_eq!(
        main_body(&second),
        "  %tmp4 = load i32, i32* %x_ptr\n  call i32 (i8*, ...) @printf(i8* getelementptr inbounds ([4 x i8], [4 x i8]* @fmt_num, i32 0, i32 0), i32 %tmp4)\n  br label %L3\nL3:\n  %tmp5 = load i32, i32* %x_ptr\n  %tmp6 = icmp slt i32 %tmp5, 2\n  br i1 %tmp6, label %L4, label %L5\nL4:\n  br label %L3\nL5:\n"
    );
}

#[test]
fn a_failure_leaves_the_generator_as_new() {
    let mut compiler = Compiler::new();
    compiler.compile(&program("var x = 1; var s = \"a\"; print(x);")).unwrap();
    assert_eq!(
        compiler.compile(&program("print(x); print(y);")),
        Err(CompileError::UndefinedVariable("y".to_string()))
    );
    assert_eq!(
        compiler.compile(&program("print(x);")),
        Err(CompileError::UndefinedVariable("x".to_string()))
    );
    assert_eq!(
        compiler.compile(&program("print(\"z\");")).unwrap(),
        Compiler::new().compile(&program("print(\"z\");")).unwrap()
    );
}

#[test]
fn a_later_literal_finds_the_id_of_an_equal_one() {
    let out = compile(
        "print(\"a\"); print(\"b\"); func f() { print(\"a\"); print(\"c\"); } print(\"b\"); print(\"ab\");",
    )
    .unwrap();
    assert_eq!(out.matches(" = private unnamed_addr constant [2 x i8] c\"a\\00\"").count(), 1);
    assert!(out.contains("@str.0 = private unnamed_addr constant [2 x i8] c\"a\\00\"\n@str.1 = private unnamed_addr constant [2 x i8] c\"b\\00\"\n@str.2 = private unnamed_addr constant [2 x i8] c\"c\\00\"\n@str.3 = private unnamed_addr constant [3 x i8] c\"ab\\00\"\n"));
    assert_eq!(out.matches("[2 x i8]* @str.0, i32 0, i32 0))").count(), 2);
    assert_eq!(out.matches("[2 x i8]* @str.1, i32 0, i32 0))").count(), 2);
    assert_eq!(out.matches("@str.4").count(), 0);
}

#[test]
fn a_variable_is_loaded_in_the_form_of_its_type() {
    let out = compile(
        "class P { var x; } var n = 1; var s = \"a\"; var p = new P(); \
         if (n < 2) { n = 5; var other = 3; } \
         func f(n) { var s = 1; print(s); } \
         print(n); print(s); print(p.x);",
    )
    .unwrap();
    let body = main_body(&out);
    assert!(body.contains(" = load i32, i32* %n_ptr\n"));
    assert!(body.contains(" = load i8*, i8** %s_ptr\n"));
    assert!(body.contains(" = load %struct.P*, %struct.P** %p_ptr\n"));
    assert_eq!(body.matches("load i32, i32* %s_ptr").count(), 0);
    assert!(functions(&out).contains(" = load i32, i32* %s_ptr\n"));
}

#[test]
fn a_variable_of_a_block_is_seen_behind_it() {
    let out = compile("if (1 < 2) { var x = 1; } print(x);").unwrap();
    assert!(main_body(&out).ends_with("i32 0, i32 0), i32 %tmp2)\n"));
}

#[test]
fn a_function_has_a_symbol_table_of_its_own() {
    assert_eq!(
        compile("var x = 1; func f() { print(x); }"),
        Err(CompileError::UndefinedVariable("x".to_string()))
    );
    assert_eq!(
        compile("func f(a) { var y = a; } print(y);"),
        Err(CompileError::UndefinedVariable("y".to_string()))
    );
    assert!(compile("var x = 1; func f(a) { var y = a; } print(x);").is_ok());
}

#[test]
fn assignment_stores_in_the_form_of_the_value_and_keeps_the_type() {
    let out = compile("var x = 1; x = \"s\"; print(x);").unwrap();
    assert_eq!(
        main_body(&out),
        "  %x_ptr = alloca i32\n  store i32 1, i32* %x_ptr\n  store i8* @str.0, i8** %x_ptr\n  %tmp1 = load i32, i32* %x_ptr\n  call i32 (i8*, ...) @printf(i8* getelementptr inbounds ([4 x i8], [4 x i8]* @fmt_num, i32 0, i32 0), i32 %tmp1)\n"
    );
}

#[test]
fn the_first_declaration_of_a_class_decides_its_fields() {
    let out = compile("class P { var x; } class P { var y; var z; } var p = new P(); print(p.x);")
        .unwrap();
    assert_eq!(out.matches("%struct.P = type").count(), 1);
    assert!(out.contains("%struct.P = type { i32 }\n"));
    assert!(out.contains("call i8* @malloc(i32 4)"));
    assert_eq!(
        compile("class P { var x; } class P { var y; } var p = new P(); print(p.y);"),
        Err(CompileError::UnknownField("y".to_string()))
    );
}

#[test]
fn fields_are_addressed_by_their_position() {
    let out = compile(
        "class P { var a; var b; var c; } var p = new P(); p.c = 1; p.a = 2; print(p.b);",
    )
    .unwrap();
    let body = main_body(&out);
    assert!(body.contains("call i8* @malloc(i32 12)"));
    assert!(body.contains("%struct.P* %tmp3, i32 0, i32 2\n  store i32 1, i32* %tmp4\n"));
    assert!(body.contains("%struct.P* %tmp5, i32 0, i32 0\n  store i32 2, i32* %tmp6\n"));
    assert!(body.contains("%struct.P* %tmp7, i32 0, i32 1\n  %tmp9 = load i32, i32* %tmp8\n"));
}

#[test]
fn array_is_stored_element_by_element_and_read_by_index() {
    let out = compile("var a = [10, 20, 30]; print(a[1]);").unwrap();
    assert_eq!(
        main_body(&out),
        "  %a_ptr = alloca [3 x i32]\n  %tmp1 = getelementptr inbounds [3 x i32], [3 x i32]* %a_ptr, i32 0, i32 0\n  store i32 10, i32* %tmp1\n  %tmp2 = getelementptr inbounds [3 x i32], [3 x i32]* %a_ptr, i32 0, i32 1\n  store i32 20, i32* %tmp2\n  %tmp3 = getelementptr inbounds [3 x i32], [3 x i32]* %a_ptr, i32 0, i32 2\n  store i32 30, i32* %tmp3\n  %tmp4 = getelementptr inbounds [3 x i32], [3 x i32]* %a_ptr, i32 0, i32 1\n  %tmp5 = load i32, i32* %tmp4\n  call i32 (i8*, ...) @printf(i8* getelementptr inbounds ([4 x i8], [4 x i8]* @fmt_num, i32 0, i32 0), i32 %tmp5)\n"
    );
}

#[test]
fn arithmetic_and_comparisons() {
    let out = compile("var x = 6; print(x + 1 - 2 * 3 / 4); print(x >= 1); print(x != x);").unwrap();
    let body = main_body(&out);
    assert!(body.contains("  %tmp2 = add i32 %tmp1, 1\n"));
    assert!(body.contains("  %tmp3 = mul i32 2, 3\n"));
    assert!(body.contains("  %tmp4 = sdiv i32 %tmp3, 4\n"));
    assert!(body.contains("  %tmp5 = sub i32 %tmp2, %tmp4\n"));
    assert!(body.contains("  %tmp7 = icmp sge i32 %tmp6, 1\n"));
    assert!(body.contains("  %tmp10 = icmp ne i32 %tmp8, %tmp9\n"));
    for (source, op) in [("a == b", "eq"), ("a < b", "slt"), ("a > b", "sgt"), ("a <= b", "sle")] {
        let out = compile(&format!("var a = 1; var b = 2; print({});", source)).unwrap();
        assert!(out.contains(&format!("  %tmp3 = icmp {} i32 %tmp1, %tmp2\n", op)));
    }
}

#[test]
fn function_returns_zero_when_its_body_returns_nothing() {
    let out = compile("func f(a, b) { print(a); } func g() { return 7; } func h() { return; }")
        .unwrap();
    assert_eq!(
        functions(&out),
        "\ndefine i32 @f(i32 %arg0, i32 %arg1) {\nentry:\n  %a_ptr = alloca i32\n  store i32 %arg0, i32* %a_ptr\n  %b_ptr = alloca i32\n  store i32 %arg1, i32* %b_ptr\n  %tmp1 = load i32, i32* %a_ptr\n  call i32 (i8*, ...) @printf(i8* getelementptr inbounds ([4 x i8], [4 x i8]* @fmt_num, i32 0, i32 0), i32 %tmp1)\n  ret i32 0\n}\n\ndefine i32 @g() {\nentry:\n  ret i32 7\n}\n\ndefine i32 @h() {\nentry:\n  ret i32 0\n}\n"
    );
    assert_eq!(main_body(&out), "");
}

#[test]
fn calls_pass_every_argument_at_integer_width() {
    let out = compile("var s = \"v\"; var n = 1; f(n, 2, \"lit\", s);").unwrap();
    let body = main_body(&out);
    assert!(body.ends_with(
        "  %tmp2 = load i32, i32* %n_ptr\n  %tmp3 = getelementptr inbounds [4 x i8], [4 x i8]* @str.1, i32 0, i32 0\n  %tmp4 = ptrtoint i8* %tmp3 to i32\n  %tmp5 = load i8*, i8** %s_ptr\n  %tmp6 = ptrtoint i8* %tmp5 to i32\n  %tmp7 = call i32 @f(i32 %tmp2, i32 2, i32 %tmp4, i32 %tmp6)\n"
    ));
    let out = compile("class P { func m(a) { } } var p = new P(); p.m(\"x\");").unwrap();
    assert!(main_body(&out).ends_with(
        "  %tmp3 = load %struct.P*, %struct.P** %p_ptr\n  %tmp4 = getelementptr inbounds [2 x i8], [2 x i8]* @str.0, i32 0, i32 0\n  %tmp5 = ptrtoint i8* %tmp4 to i32\n  %tmp6 = call i32 @P_m(%struct.P* %tmp3, i32 %tmp5)\n"
    ));
    let out = compile("f();").unwrap();
    assert_eq!(main_body(&out), "  %tmp1 = call i32 @f()\n");
}

#[test]
fn built_in_print_takes_a_constant_or_an_address() {
    let out = compile("print_str(\"hi\"); var a = 5; print_str(a);").unwrap();
    assert_eq!(
        main_body(&out),
        "  %tmp1 = getelementptr inbounds [3 x i8], [3 x i8]* @str.0, i32 0, i32 0\n  call i32 (i8*, ...) @printf(i8* getelementptr inbounds ([4 x i8], [4 x i8]* @fmt_str, i32 0, i32 0), i8* %tmp1)\n  %a_ptr = alloca i32\n  store i32 5, i32* %a_ptr\n  %tmp2 = load i32, i32* %a_ptr\n  %tmp3 = inttoptr i32 %tmp2 to i8*\n  call i32 (i8*, ...) @printf(i8* getelementptr inbounds ([4 x i8], [4 x i8]* @fmt_str, i32 0, i32 0), i8* %tmp3)\n"
    );
}

#[test]
fn return_outside_a_function_goes_to_the_entry_point() {
    let out = compile("return 3; return;").unwrap();
    assert_eq!(main_body(&out), "  ret i32 3\n  ret i32 0\n");
}

#[test]
fn negative_number_is_written_with_its_sign() {
    let out = Compiler::new().compile(&[Stmt::Print(Expr::Number(-12))]).unwrap();
    assert!(main_body(&out).ends_with("i32 -12)\n"));
}

#[test]
fn every_failure_is_signalled() {
    let name = |s: &str| s.to_string();
    assert_eq!(compile("print(x);"), Err(CompileError::UndefinedVariable(name("x"))));
    assert_eq!(compile("print(x[0]);"), Err(CompileError::UndefinedVariable(name("x"))));
    assert_eq!(compile("var p = new P();"), Err(CompileError::UnknownClass(name("P"))));
    assert_eq!(
        compile("class P { var x; } var p = new P(); print(p.y);"),
        Err(CompileError::UnknownField(name("y")))
    );
    assert_eq!(
        compile("class P { var x; } var p = new P(); p.y = 1;"),
        Err(CompileError::UnknownField(name("y")))
    );
    assert_eq!(compile("var s = \"a\"; print(s[0]);"), Err(CompileError::NotAnArray(name("s"))));
    assert_eq!(compile("var a = [1]; print(a);"), Err(CompileError::ArrayWithoutIndex(name("a"))));
    assert_eq!(compile("print([1]);"), Err(CompileError::InvalidArrayLiteralContext));
    assert_eq!(compile("var a = 1; a = [1];"), Err(CompileError::InvalidArrayLiteralContext));
    assert_eq!(compile("print(\"a\" + 1);"), Err(CompileError::UnsupportedOperandType));
    assert_eq!(
        compile("class P { } var p = new P(); print(1 * p);"),
        Err(CompileError::UnsupportedOperandType)
    );
    assert_eq!(
        Compiler::new().compile(&[Stmt::Print(Expr::Binary(
            Box::new(Expr::Number(1)),
            TokenType::Comma,
            Box::new(Expr::Number(2))
        ))]),
        Err(CompileError::UnsupportedOperator)
    );
    assert_eq!(
        compile("class P { } var p = new P(); print(p);"),
        Err(CompileError::UnprintableType)
    );
    assert_eq!(compile("var x = 1; print(x.f);"), Err(CompileError::NotAnInstance));
    assert_eq!(compile("var x = 1; x.f = 2;"), Err(CompileError::InvalidAssignmentTarget));
    assert_eq!(compile("var x = 1; x.m();"), Err(CompileError::InvalidCallTarget));
    assert_eq!(compile("print_str();"), Err(CompileError::MissingArgument));
    assert_eq!(compile("func f(this) { }"), Err(CompileError::ReceiverOutsideClass));
}

#[test]
fn comparison_of_strings_is_lowered_like_any_comparison() {
    assert!(compile("var s = \"a\"; print(s == s);").is_ok());
}

#[test]
fn failures_have_messages() {
    assert_eq!(CompileError::UndefinedVariable("x".to_string()).message(), "Undefined variable: x");
    assert_eq!(CompileError::NotAnArray("x".to_string()).message(), "Not an array: x");
    assert_eq!(
        CompileError::UnprintableType.message(),
        "A value of this type cannot be printed"
    );
}

#[test]
fn function_that_returns_in_one_arm_only_ends_with_a_return_of_zero() {
    let out = compile("func f(a) { if (a) { return 1; } }").unwrap();
    assert_eq!(
        functions(&out),
        "\ndefine i32 @f(i32 %arg0) {\nentry:\n  %a_ptr = alloca i32\n  store i32 %arg0, i32* %a_ptr\n  %tmp1 = load i32, i32* %a_ptr\n  br i1 %tmp1, label %L0, label %L2\nL0:\n  ret i32 1\n  br label %L2\nL2:\n  ret i32 0\n}\n"
    );
    let tree = vec![Stmt::FuncDecl("f".to_string(), vec!["a".to_string()], vec![Stmt::IfStmt(
        Expr::Variable("a".to_string()),
        vec![Stmt::ReturnStmt(Some(Expr::Number(1)))],
        None,
    )])];
    assert!(functions(&Compiler::new().compile(&tree).unwrap()).ends_with("L2:\n  ret i32 0\n}\n"));
}

#[test]
fn function_whose_last_instruction_is_no_return_gets_one() {
    let both = compile("func f(a) { if (a) { return 1; } else { return 2; } }").unwrap();
    assert!(functions(&both).ends_with("  ret i32 2\n  br label %L2\nL2:\n  ret i32 0\n}\n"));
    let looped = compile("func f(a) { while (a) { return 1; } }").unwrap();
    assert!(functions(&looped).ends_with("  ret i32 1\n  br label %L0\nL2:\n  ret i32 0\n}\n"));
    let after = compile("func f() { return 1; print(2); }").unwrap();
    assert!(functions(&after).ends_with("i32 0, i32 0), i32 2)\n  ret i32 0\n}\n"));
    let block = compile("func f(a) { if (a) { } return 3; }").unwrap();
    assert!(functions(&block).ends_with("L2:\n  ret i32 3\n}\n"));
}

#[test]
fn function_that_ends_with_a_return_gets_no_other() {
    let out = compile("func g() { return 7; } func h(a) { print(a); return a; }").unwrap();
    assert_eq!(out.matches("ret i32").count(), 3);
    assert!(functions(&out).starts_with("\ndefine i32 @g() {\nentry:\n  ret i32 7\n}\n"));
    assert!(functions(&out).ends_with("  ret i32 %tmp2\n}\n"));
}

#[test]
fn every_function_ends_with_a_return_before_its_brace() {
    let out = compile(
        "func a() { } func b(x) { if (x) { return 1; } } \
         class P { var v; func m() { while (this.v < 1) { return 2; } } func n() { return this.v; } } \
         func c() { func d() { return 4; } print(1); }",
    )
    .unwrap();
    let text = functions(&out);
    let braces: Vec<usize> = text.match_indices("}\n").map(|(i, _)| i).collect();
    assert_eq!(braces.len(), 6);
    for end in braces {
        let before = &text[..end];
        let last = before[..before.len() - 1].rfind('\n').unwrap();
        assert!(before[last + 1..].starts_with("  ret i32 "), "{:?}", &before[last + 1..]);
    }
}

#[test]
fn function_declared_inside_another_is_a_block_of_its_own() {
    let out = compile("func c(a) { print(1); func d(b) { return b; } print(a); }").unwrap();
    assert_eq!(
        functions(&out),
        "\ndefine i32 @d(i32 %arg0) {\nentry:\n  %b_ptr = alloca i32\n  store i32 %arg0, i32* %b_ptr\n  %tmp1 = load i32, i32* %b_ptr\n  ret i32 %tmp1\n}\n\ndefine i32 @c(i32 %arg0) {\nentry:\n  %a_ptr = alloca i32\n  store i32 %arg0, i32* %a_ptr\n  call i32 (i8*, ...) @printf(i8* getelementptr inbounds ([4 x i8], [4 x i8]* @fmt_num, i32 0, i32 0), i32 1)\n  %tmp2 = load i32, i32* %a_ptr\n  call i32 (i8*, ...) @printf(i8* getelementptr inbounds ([4 x i8], [4 x i8]* @fmt_num, i32 0, i32 0), i32 %tmp2)\n  ret i32 0\n}\n"
    );
    assert_eq!(main_body(&out), "");
}

#[test]
fn function_declared_behind_a_return_does_not_end_the_body_of_the_outer_one() {
    let out = compile("func c() { return 1; func d() { } }").unwrap();
    assert!(functions(&out).ends_with("\ndefine i32 @c() {\nentry:\n  ret i32 1\n}\n"));
    let out = compile("func c() { func d() { return 2; } }").unwrap();
    assert!(functions(&out).ends_with("\ndefine i32 @c() {\nentry:\n  ret i32 0\n}\n"));
}

#[test]
fn class_declared_inside_a_method_leaves_the_class_of_the_method_current() {
    let out = compile(
        "class C { var x; func one() { class D { var y; func get() { return this.y; } } return 1; } func two() { return this.x; } }",
    )
    .unwrap();
    let text = functions(&out);
    assert!(text.contains("\ndefine i32 @D_get(%struct.D* %arg0) {\n"));
    assert!(text.contains("\ndefine i32 @C_one(%struct.C* %arg0) {\n"));
    assert!(text.contains("\ndefine i32 @C_two(%struct.C* %arg0) {\nentry:\n  %this_ptr = alloca %struct.C*\n"));
    assert!(out.contains("%struct.C = type { i32 }\n%struct.D = type { i32 }\n"));
}
