use aura_lang::counter::Counter;
use aura_lang::ir::{constant_line_text, decimal_text, type_text_of};
use aura_lang::text::{find_text, push_decimal, push_escaped, push_joined, push_signed, same_text};
use aura_lang::types::ValueType;

fn decimal(n: u128) -> String {
    let mut out = String::from(">");
    push_decimal(&mut out, n);
    out
}

fn signed(n: i32) -> String {
    let mut out = String::new();
    push_signed(&mut out, n);
    out
}

fn escaped(bytes: &[u8]) -> String {
    let mut out = String::new();
    push_escaped(&mut out, bytes);
    out
}

#[test]
fn decimal_numerals() {
    assert_eq!(decimal(0), ">0");
    assert_eq!(decimal(7), ">7");
    assert_eq!(decimal(10), ">10");
    assert_eq!(decimal(1234567890), ">1234567890");
    assert_eq!(decimal(u128::MAX), format!(">{}", u128::MAX));
    assert_eq!(decimal_text(409), "409");
}

#[test]
fn signed_numerals() {
    assert_eq!(signed(0), "0");
    assert_eq!(signed(5), "5");
    assert_eq!(signed(-5), "-5");
    assert_eq!(signed(i32::MAX), "2147483647");
    assert_eq!(signed(i32::MIN), "-2147483648");
}

#[test]
fn printable_bytes_are_written_as_themselves() {
    assert_eq!(escaped(b"hi there ~!"), "hi there ~!");
    assert_eq!(escaped(b""), "");
}

#[test]
fn other_bytes_are_written_as_two_hexadecimal_digits() {
    assert_eq!(escaped(b"\n"), "\\0A");
    assert_eq!(escaped(b"\""), "\\22");
    assert_eq!(escaped(b"\\"), "\\5C");
    assert_eq!(escaped(&[0, 31, 32, 126, 127, 255]), "\\00\\1F ~\\7F\\FF");
    assert_eq!(escaped("é".as_bytes()), "\\C3\\A9");
}

#[test]
fn constant_counts_the_bytes_and_the_terminating_null() {
    assert_eq!(
        constant_line_text(0, "hi"),
        "@str.0 = private unnamed_addr constant [3 x i8] c\"hi\\00\"\n"
    );
    assert_eq!(
        constant_line_text(12, "a\"é\n"),
        "@str.12 = private unnamed_addr constant [6 x i8] c\"a\\22\\C3\\A9\\0A\\00\"\n"
    );
    assert_eq!(
        constant_line_text(1, ""),
        "@str.1 = private unnamed_addr constant [1 x i8] c\"\\00\"\n"
    );
}

#[test]
fn types_are_written_in_the_form_of_the_target() {
    assert_eq!(type_text_of(&ValueType::Int), "i32");
    assert_eq!(type_text_of(&ValueType::Str), "i8*");
    assert_eq!(type_text_of(&ValueType::Array(3)), "[3 x i32]");
    assert_eq!(type_text_of(&ValueType::Instance("P".to_string())), "%struct.P*");
}

#[test]
fn texts_are_compared_by_content() {
    assert!(same_text("", ""));
    assert!(same_text("abc", "abc"));
    assert!(!same_text("abc", "abd"));
    assert!(!same_text("abc", "ab"));
    assert!(!same_text("é", "e"));
}

#[test]
fn first_equal_text_is_found() {
    let items = vec!["a".to_string(), "b".to_string(), "a".to_string()];
    assert_eq!(find_text(&items, "a"), Some(0));
    assert_eq!(find_text(&items, "b"), Some(1));
    assert_eq!(find_text(&items, "c"), None);
    assert_eq!(find_text(&Vec::new(), "a"), None);
}

#[test]
fn joined_items_are_separated_by_comma_and_space() {
    let mut out = String::new();
    push_joined(&mut out, true, "a");
    push_joined(&mut out, false, "b");
    push_joined(&mut out, false, "c");
    assert_eq!(out, "a, b, c");
}

#[test]
fn counter_counts_past_every_carry() {
    let mut counter = Counter::zero();
    let mut seen = Vec::new();
    for expected in 0..1200u32 {
        let mut text = String::new();
        counter.push_to(&mut text);
        assert_eq!(text, expected.to_string());
        seen.push(text);
        counter.increment();
    }
    seen.sort();
    seen.dedup();
    assert_eq!(seen.len(), 1200);
}
