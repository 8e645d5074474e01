use aura_lang::compiler::Compiler;
use aura_lang::error::CompileError;
use aura_lang::lexer::Lexer;
use aura_lang::parser::Parser;

fn compile(source: &str) -> Result<String, CompileError> {
    let tokens = Lexer::new(source.to_string()).tokenize().unwrap();
    let program = Parser::new(tokens).parse().unwrap();
    Compiler::new().compile(&program)
}

fn main_body(module: &str) -> &str {
    let start = module.find("@cmd_chcp, i32 0, i32 0))\n").unwrap() + "@cmd_chcp, i32 0, i32 0))\n".len();
    let end = module.rfind("  ret i32 0\n}\n").unwrap();
    &module[start..end]
}

#[test]
fn integer_variable_from_source() {
    let out = compile("var x = 5; print(x);").unwrap();
    assert_eq!(
        main_body(&out),
        "  %x_ptr = alloca i32\n  store i32 5, i32* %x_ptr\n  %tmp1 = load i32, i32* %x_ptr\n  call i32 (i8*, ...) @printf(i8* getelementptr inbounds ([4 x i8], [4 x i8]* @fmt_num, i32 0, i32 0), i32 %tmp1)\n"
    );
}

#[test]
fn string_variable_from_source() {
    let out = compile("var s = \"hi\"; print(s);").unwrap();
    assert_eq!(out.matches("@str.0 = private unnamed_addr constant [3 x i8] c\"hi\\00\"\n").count(), 1);
    assert_eq!(out.matches("@str.1").count(), 0);
    assert_eq!(
        main_body(&out),
        "  %s_ptr = alloca i8*\n  %tmp1 = getelementptr inbounds [3 x i8], [3 x i8]* @str.0, i32 0, i32 0\n  store i8* %tmp1, i8** %s_ptr\n  %tmp2 = load i8*, i8** %s_ptr\n  call i32 (i8*, ...) @printf(i8* getelementptr inbounds ([4 x i8], [4 x i8]* @fmt_str, i32 0, i32 0), i8* %tmp2)\n"
    );
}

#[test]
fn conditional_from_source() {
    let out = compile("if (1 < 2) { print(1); } else { print(0); }").unwrap();
    let body = main_body(&out);
    assert_eq!(body.matches("icmp slt i32 1, 2").count(), 1);
    assert_eq!(body.matches("  br i1 %tmp1, label %L0, label %L1\n").count(), 1);
    assert_eq!(body.matches("  br label %L2\n").count(), 2);
    assert_eq!(body.matches("L0:\n").count(), 1);
    assert_eq!(body.matches("L1:\n").count(), 1);
    assert_eq!(body.matches("L2:\n").count(), 1);
    assert_eq!(body.matches("L3").count(), 0);
}

#[test]
fn class_instance_from_source() {
    let out = compile("class P { var x; } var p = new P(); p.x = 7; print(p.x);").unwrap();
    assert_eq!(out.matches("%struct.P = type { i32 }\n").count(), 1);
    let body = main_body(&out);
    assert_eq!(body.matches("call i8* @malloc(i32 4)").count(), 1);
    assert_eq!(body.matches("%struct.P* %tmp3, i32 0, i32 0\n  store i32 7, i32* %tmp4\n").count(), 1);
    assert_eq!(
        body.matches("%struct.P* %tmp5, i32 0, i32 0\n  %tmp7 = load i32, i32* %tmp6\n").count(),
        1
    );
    assert!(body.ends_with("@fmt_num, i32 0, i32 0), i32 %tmp7)\n"));
}

#[test]
fn equal_literals_from_source() {
    let out = compile("print(\"same\"); var t = \"same\"; f(\"same\");").unwrap();
    assert_eq!(out.matches("@str.0 = ").count(), 1);
    assert_eq!(out.matches("@str.1").count(), 0);
    assert_eq!(out.matches("c\"same\\00\"").count(), 1);
}

#[test]
fn index_on_an_integer_from_source() {
    assert_eq!(
        compile("var x = 1; print(x[0]);"),
        Err(CompileError::NotAnArray("x".to_string()))
    );
}

#[test]
fn class_may_be_used_before_its_declaration() {
    let out = compile("var p = new P(); class P { var x; var y; }").unwrap();
    assert_eq!(out.matches("%struct.P = type { i32, i32 }\n").count(), 1);
    assert_eq!(out.matches("call i8* @malloc(i32 8)").count(), 1);
}

#[test]
fn for_loop_is_lowered_as_a_while_loop() {
    let out = compile("for (var i = 0; i < 2; i = i + 1) { print(i); }").unwrap();
    assert_eq!(
        main_body(&out),
        "  %i_ptr = alloca i32\n  store i32 0, i32* %i_ptr\n  br label %L0\nL0:\n  %tmp1 = load i32, i32* %i_ptr\n  %tmp2 = icmp slt i32 %tmp1, 2\n  br i1 %tmp2, label %L1, label %L2\nL1:\n  %tmp3 = load i32, i32* %i_ptr\n  call i32 (i8*, ...) @printf(i8* getelementptr inbounds ([4 x i8], [4 x i8]* @fmt_num, i32 0, i32 0), i32 %tmp3)\n  %tmp4 = load i32, i32* %i_ptr\n  %tmp5 = add i32 %tmp4, 1\n  store i32 %tmp5, i32* %i_ptr\n  br label %L0\nL2:\n"
    );
}

#[test]
fn method_is_compiled_to_a_function_with_a_receiver() {
    let out = compile(
        "class P { var x; func get(d) { return this.x + d; } } var p = new P(); print(p.get(1));",
    )
    .unwrap();
    assert!(out.contains(
        "\ndefine i32 @P_get(%struct.P* %arg0, i32 %arg1) {\nentry:\n  %this_ptr = alloca %struct.P*\n  store %struct.P* %arg0, %struct.P** %this_ptr\n  %d_ptr = alloca i32\n  store i32 %arg1, i32* %d_ptr\n  %tmp1 = load %struct.P*, %struct.P** %this_ptr\n  %tmp2 = getelementptr inbounds %struct.P, %struct.P* %tmp1, i32 0, i32 0\n  %tmp3 = load i32, i32* %tmp2\n  %tmp4 = load i32, i32* %d_ptr\n  %tmp5 = add i32 %tmp3, %tmp4\n  ret i32 %tmp5\n}\n"
    ));
    assert!(main_body(&out).contains("  %tmp9 = call i32 @P_get(%struct.P* %tmp8, i32 1)\n"));
}
