use aura_lang::ast::{Expr, Stmt};
use aura_lang::compiler::Compiler;
use aura_lang::error::CompileError;
use aura_lang::token::TokenType;

const PREAMBLE: &str = "; Module: aura_lang\n\
declare i32 @printf(i8*, ...)\n\
declare i32 @system(i8*)\n\
declare i8* @malloc(i32)\n\
@fmt_num = private unnamed_addr constant [4 x i8] c\"%d\\0A\\00\"\n\
@fmt_str = private unnamed_addr constant [4 x i8] c\"%s\\0A\\00\"\n\
@cmd_chcp = private unnamed_addr constant [17 x i8] c\"chcp 65001 > nul\\00\"\n";

const ENTRY: &str = "\ndefine i32 @main() {\nentry:\n  call i32 @system(i8* getelementptr inbounds ([17 x i8], [17 x i8]* @cmd_chcp, i32 0, i32 0))\n";

const EXIT: &str = "  ret i32 0\n}\n";

fn module(types_and_strings: &str, functions: &str, main: &str) -> String {
    format!("{}{}\n{}{}{}{}", PREAMBLE, types_and_strings, functions, ENTRY, main, EXIT)
}

fn var(name: &str) -> Expr {
    Expr::Variable(name.to_string())
}

fn text(s: &str) -> Expr {
    Expr::String(s.to_string())
}

fn compile(stmts: &[Stmt]) -> Result<String, CompileError> {
    Compiler::new().compile(stmts)
}

#[test]
fn empty_program_is_only_the_frame() {
    assert_eq!(compile(&[]).unwrap(), module("", "", ""));
}

#[test]
fn integer_variable_is_stored_and_printed() {
    let program = vec![
        Stmt::VarDecl("x".to_string(), Expr::Number(5)),
        Stmt::Print(var("x")),
    ];
    let main = "  %x_ptr = alloca i32\n  store i32 5, i32* %x_ptr\n  %tmp1 = load i32, i32* %x_ptr\n  call i32 (i8*, ...) @printf(i8* getelementptr inbounds ([4 x i8], [4 x i8]* @fmt_num, i32 0, i32 0), i32 %tmp1)\n";
    let out = compile(&program).unwrap();
    assert_eq!(out, module("", "", main));
    assert_eq!(out.matches("alloca").count(), 1);
    assert_eq!(out.matches("@fmt_num, i32 0, i32 0), i32").count(), 1);
}

#[test]
fn string_variable_holds_the_address_of_its_constant() {
    let program = vec![
        Stmt::VarDecl("s".to_string(), text("hi")),
        Stmt::Print(var("s")),
    ];
    let strings = "@str.0 = private unnamed_addr constant [3 x i8] c\"hi\\00\"\n";
    let main = "  %s_ptr = alloca i8*\n  %tmp1 = getelementptr inbounds [3 x i8], [3 x i8]* @str.0, i32 0, i32 0\n  store i8* %tmp1, i8** %s_ptr\n  %tmp2 = load i8*, i8** %s_ptr\n  call i32 (i8*, ...) @printf(i8* getelementptr inbounds ([4 x i8], [4 x i8]* @fmt_str, i32 0, i32 0), i8* %tmp2)\n";
    let out = compile(&program).unwrap();
    assert_eq!(out, module(strings, "", main));
    assert_eq!(out.matches("@str.0 = ").count(), 1);
    assert_eq!(out.matches("alloca i8*").count(), 1);
}

#[test]
fn string_literal_is_printed_from_its_constant() {
    let program = vec![Stmt::Print(text("hi"))];
    let strings = "@str.0 = private unnamed_addr constant [3 x i8] c\"hi\\00\"\n";
    let main = "  call i32 (i8*, ...) @printf(i8* getelementptr inbounds ([4 x i8], [4 x i8]* @fmt_str, i32 0, i32 0), i8* getelementptr inbounds ([3 x i8], [3 x i8]* @str.0, i32 0, i32 0))\n";
    assert_eq!(compile(&program).unwrap(), module(strings, "", main));
}

#[test]
fn conditional_uses_three_labels() {
    let program = vec![Stmt::IfStmt(
        Expr::Binary(Box::new(Expr::Number(1)), TokenType::Lt, Box::new(Expr::Number(2))),
        vec![Stmt::Print(Expr::Number(1))],
        Some(vec![Stmt::Print(Expr::Number(0))]),
    )];
    let main = "  %tmp1 = icmp slt i32 1, 2\n  br i1 %tmp1, label %L0, label %L1\nL0:\n  call i32 (i8*, ...) @printf(i8* getelementptr inbounds ([4 x i8], [4 x i8]* @fmt_num, i32 0, i32 0), i32 1)\n  br label %L2\nL1:\n  call i32 (i8*, ...) @printf(i8* getelementptr inbounds ([4 x i8], [4 x i8]* @fmt_num, i32 0, i32 0), i32 0)\n  br label %L2\nL2:\n";
    assert_eq!(compile(&program).unwrap(), module("", "", main));
}

#[test]
fn conditional_without_else_branches_to_the_join() {
    let program = vec![Stmt::IfStmt(
        Expr::Binary(Box::new(Expr::Number(1)), TokenType::Eq, Box::new(Expr::Number(2))),
        vec![],
        None,
    )];
    let main = "  %tmp1 = icmp eq i32 1, 2\n  br i1 %tmp1, label %L0, label %L2\nL0:\n  br label %L2\nL2:\n";
    assert_eq!(compile(&program).unwrap(), module("", "", main));
}

#[test]
fn class_instance_field_is_written_and_read() {
    let program = vec![
        Stmt::ClassDecl("P".to_string(), vec!["x".to_string()], vec![]),
        Stmt::VarDecl("p".to_string(), Expr::New("P".to_string())),
        Stmt::ExprStmt(Expr::Assign(
            Box::new(var("p")),
            "x".to_string(),
            Box::new(Expr::Number(7)),
        )),
        Stmt::Print(Expr::Get(Box::new(var("p")), "x".to_string())),
    ];
    let types = "%struct.P = type { i32 }\n";
    let main = "  %tmp1 = call i8* @malloc(i32 4)\n  %tmp2 = bitcast i8* %tmp1 to %struct.P*\n  %p_ptr = alloca %struct.P*\n  store %struct.P* %tmp2, %struct.P** %p_ptr\n  %tmp3 = load %struct.P*, %struct.P** %p_ptr\n  %tmp4 = getelementptr inbounds %struct.P, %struct.P* %tmp3, i32 0, i32 0\n  store i32 7, i32* %tmp4\n  %tmp5 = load %struct.P*, %struct.P** %p_ptr\n  %tmp6 = getelementptr inbounds %struct.P, %struct.P* %tmp5, i32 0, i32 0\n  %tmp7 = load i32, i32* %tmp6\n  call i32 (i8*, ...) @printf(i8* getelementptr inbounds ([4 x i8], [4 x i8]* @fmt_num, i32 0, i32 0), i32 %tmp7)\n";
    let out = compile(&program).unwrap();
    assert_eq!(out, module(types, "", main));
    assert_eq!(out.matches("@malloc(i32 4)").count(), 1);
}

#[test]
fn equal_literals_share_one_pool_entry() {
    let program = vec![Stmt::Print(text("same")), Stmt::Print(text("same"))];
    let out = compile(&program).unwrap();
    assert_eq!(out.matches("@str.0 = ").count(), 1);
    assert_eq!(out.matches("@str.1").count(), 0);
    assert_eq!(out.matches("[5 x i8]* @str.0, i32 0, i32 0))").count(), 2);
}

#[test]
fn literals_that_differ_get_different_ids() {
    let program = vec![Stmt::Print(text("same")), Stmt::Print(text("samf"))];
    let out = compile(&program).unwrap();
    assert_eq!(out.matches("@str.0 = ").count(), 1);
    assert_eq!(out.matches("@str.1 = ").count(), 1);
}

#[test]
fn indexing_an_integer_fails() {
    let program = vec![
        Stmt::VarDecl("x".to_string(), Expr::Number(1)),
        Stmt::Print(Expr::IndexAccess("x".to_string(), Box::new(Expr::Number(0)))),
    ];
    assert_eq!(compile(&program), Err(CompileError::NotAnArray("x".to_string())));
}
