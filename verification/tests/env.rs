use aura_lang::assemble::{module, pool_lines_text, struct_line_text, struct_lines_text};
use aura_lang::env::{ClassInfo, ClassRegistry, StringPool, SymbolTable};
use aura_lang::types::ValueType;

#[test]
fn symbol_table_keeps_the_last_binding_of_a_name() {
    let mut table = SymbolTable::new();
    assert_eq!(table.get("x"), None);
    table.insert("x".to_string(), ValueType::Int);
    table.insert("y".to_string(), ValueType::Array(2));
    assert_eq!(table.get("x"), Some(ValueType::Int));
    table.insert("x".to_string(), ValueType::Instance("P".to_string()));
    assert_eq!(table.get("x"), Some(ValueType::Instance("P".to_string())));
    assert_eq!(table.get("y"), Some(ValueType::Array(2)));
    assert_eq!(table.get("z"), None);
}

#[test]
fn registry_keeps_the_first_registration_of_a_class() {
    let mut classes = ClassRegistry::new();
    assert_eq!(classes.len(), 0);
    assert_eq!(classes.find("P"), None);
    classes.register("P", &vec!["x".to_string()]);
    classes.register("Q", &vec![]);
    classes.register("P", &vec!["a".to_string(), "b".to_string()]);
    assert_eq!(classes.len(), 2);
    assert_eq!(classes.find("P"), Some(0));
    assert_eq!(classes.find("Q"), Some(1));
    assert_eq!(classes.get(0).name, "P");
    assert_eq!(classes.get(0).fields, vec!["x".to_string()]);
    assert_eq!(struct_lines_text(&classes), "%struct.P = type { i32 }\n%struct.Q = type {  }\n");
}

#[test]
fn pool_gives_equal_contents_one_id() {
    let mut pool = StringPool::new();
    assert_eq!(pool.intern("a"), 0);
    assert_eq!(pool.intern("b"), 1);
    assert_eq!(pool.intern("a"), 0);
    assert_eq!(pool.intern(""), 2);
    assert_eq!(pool.intern("b"), 1);
    assert_eq!(pool.len(), 3);
    assert_eq!(pool.get(1), "b");
    assert_eq!(
        pool_lines_text(&pool),
        "@str.0 = private unnamed_addr constant [2 x i8] c\"a\\00\"\n@str.1 = private unnamed_addr constant [2 x i8] c\"b\\00\"\n@str.2 = private unnamed_addr constant [1 x i8] c\"\\00\"\n"
    );
}

#[test]
fn aggregate_type_has_an_integer_for_each_field() {
    let class = ClassInfo {
        name: "Point".to_string(),
        fields: vec!["x".to_string(), "y".to_string(), "z".to_string()],
    };
    assert_eq!(struct_line_text(&class), "%struct.Point = type { i32, i32, i32 }\n");
}

#[test]
fn module_is_assembled_from_its_parts() {
    let mut classes = ClassRegistry::new();
    classes.register("P", &vec!["x".to_string()]);
    let mut pool = StringPool::new();
    pool.intern("s");
    let text = module(&classes, &pool, "<functions>", "<main>");
    assert_eq!(
        text,
        "; Module: aura_lang\ndeclare i32 @printf(i8*, ...)\ndeclare i32 @system(i8*)\ndeclare i8* @malloc(i32)\n@fmt_num = private unnamed_addr constant [4 x i8] c\"%d\\0A\\00\"\n@fmt_str = private unnamed_addr constant [4 x i8] c\"%s\\0A\\00\"\n@cmd_chcp = private unnamed_addr constant [17 x i8] c\"chcp 65001 > nul\\00\"\n%struct.P = type { i32 }\n@str.0 = private unnamed_addr constant [2 x i8] c\"s\\00\"\n\n<functions>\ndefine i32 @main() {\nentry:\n  call i32 @system(i8* getelementptr inbounds ([17 x i8], [17 x i8]* @cmd_chcp, i32 0, i32 0))\n<main>  ret i32 0\n}\n"
    );
}
