//! The text of the instructions and declarations that the generator emits.
//!
//! Each form is given twice: as a specification over sequences of characters,
//! and as a function that builds exactly that text.

use crate::text::{decimal, escaped, push_decimal, push_escaped};
use crate::types::{TypeModel, ValueType};
use vstd::prelude::*;

use vstd::utf8::encode_utf8;

verus! {

/// The decimal numeral of `n` as a string.
pub fn decimal_text(n: u128) -> (r: String)
    ensures
        r@ == decimal(n as nat),
{
    let mut r = String::new();
    push_decimal(&mut r, n);
    assert(Seq::<char>::empty() + decimal(n as nat) =~= decimal(n as nat));
    r
}

/// The name of the temporary with the given number.
pub open spec fn reg_name(n: nat) -> Seq<char> {
    "%tmp"@ + decimal(n)
}

/// The name of the branch target with the given number.
pub open spec fn label_name(n: nat) -> Seq<char> {
    "L"@ + decimal(n)
}

/// The name of the pooled string constant with the given id.
pub open spec fn pool_name(id: nat) -> Seq<char> {
    "@str."@ + decimal(id)
}

/// The name of the pooled string constant with the given id.
pub fn pool_name_text(id: usize) -> (r: String)
    ensures
        r@ == pool_name(id as nat),
{
    String::from_str("@str.").concat(decimal_text(id as u128).as_str())
}

/// The name of the incoming argument at the given position.
pub open spec fn arg_name(i: nat) -> Seq<char> {
    "%arg"@ + decimal(i)
}

/// The name of the incoming argument at the given position.
pub fn arg_name_text(i: usize) -> (r: String)
    ensures
        r@ == arg_name(i as nat),
{
    String::from_str("%arg").concat(decimal_text(i as u128).as_str())
}

/// The name of the aggregate type of a class.
pub open spec fn struct_name(class: Seq<char>) -> Seq<char> {
    "%struct."@ + class
}

/// How a value type is written.
pub open spec fn type_text(ty: TypeModel) -> Seq<char> {
    match ty {
        TypeModel::Int => "i32"@,
        TypeModel::Str => "i8*"@,
        TypeModel::Array(n) => "["@ + decimal(n) + " x i32]"@,
        TypeModel::Instance(class) => "%struct."@ + class + "*"@,
    }
}

/// How a value type is written.
pub fn type_text_of(ty: &ValueType) -> (r: String)
    ensures
        r@ == type_text(ty@),
{
    match ty {
        ValueType::Int => String::from_str("i32"),
        ValueType::Str => String::from_str("i8*"),
        ValueType::Array(n) => String::from_str("[").concat(
            decimal_text(*n as u128).as_str(),
        ).concat(" x i32]"),
        ValueType::Instance(class) => String::from_str("%struct.").concat(class.as_str()).concat(
            "*",
        ),
    }
}

/// Reserves the storage slot of a variable.
pub open spec fn alloca_slot(name: Seq<char>, ty: TypeModel) -> Seq<char> {
    "  %"@ + name + "_ptr = alloca "@ + type_text(ty) + "\n"@
}

/// Reserves the storage slot of a variable.
pub fn alloca_slot_text(name: &str, ty: &ValueType) -> (r: String)
    ensures
        r@ == alloca_slot(name@, ty@),
{
    String::from_str("  %").concat(name).concat("_ptr = alloca ").concat(
        type_text_of(ty).as_str(),
    ).concat("\n")
}

/// Stores a value into the slot of a variable.
pub open spec fn store_slot(ty: TypeModel, value: Seq<char>, name: Seq<char>) -> Seq<char> {
    "  store "@ + type_text(ty) + " "@ + value + ", "@ + type_text(ty) + "* %"@ + name + "_ptr\n"@
}

/// Stores a value into the slot of a variable.
pub fn store_slot_text(ty: &ValueType, value: &str, name: &str) -> (r: String)
    ensures
        r@ == store_slot(ty@, value@, name@),
{
    let tt = type_text_of(ty);
    String::from_str("  store ").concat(tt.as_str()).concat(" ").concat(value).concat(", ").concat(
        tt.as_str(),
    ).concat("* %").concat(name).concat("_ptr\n")
}

/// Loads the value of a variable from its slot.
pub open spec fn load_slot(reg: Seq<char>, ty: TypeModel, name: Seq<char>) -> Seq<char> {
    "  "@ + reg + " = load "@ + type_text(ty) + ", "@ + type_text(ty) + "* %"@ + name + "_ptr\n"@
}

/// Loads the value of a variable from its slot.
pub fn load_slot_text(reg: &str, ty: &ValueType, name: &str) -> (r: String)
    ensures
        r@ == load_slot(reg@, ty@, name@),
{
    let tt = type_text_of(ty);
    String::from_str("  ").concat(reg).concat(" = load ").concat(tt.as_str()).concat(", ").concat(
        tt.as_str(),
    ).concat("* %").concat(name).concat("_ptr\n")
}

/// Allocates `size` bytes on the heap.
pub open spec fn malloc_line(reg: Seq<char>, size: nat) -> Seq<char> {
    "  "@ + reg + " = call i8* @malloc(i32 "@ + decimal(size) + ")\n"@
}

/// Allocates `size` bytes on the heap.
pub fn malloc_line_text(reg: &str, size: u128) -> (r: String)
    ensures
        r@ == malloc_line(reg@, size as nat),
{
    String::from_str("  ").concat(reg).concat(" = call i8* @malloc(i32 ").concat(
        decimal_text(size).as_str(),
    ).concat(")\n")
}

/// Casts a raw allocation to a pointer to the aggregate type of a class.
pub open spec fn bitcast_line(reg: Seq<char>, source: Seq<char>, class: Seq<char>) -> Seq<char> {
    "  "@ + reg + " = bitcast i8* "@ + source + " to %struct."@ + class + "*\n"@
}

/// Casts a raw allocation to a pointer to the aggregate type of a class.
pub fn bitcast_line_text(reg: &str, source: &str, class: &str) -> (r: String)
    ensures
        r@ == bitcast_line(reg@, source@, class@),
{
    String::from_str("  ").concat(reg).concat(" = bitcast i8* ").concat(source).concat(
        " to %struct.",
    ).concat(class).concat("*\n")
}

/// Computes the address of the field at `index` of an object.
pub open spec fn field_address(
    reg: Seq<char>,
    class: Seq<char>,
    object: Seq<char>,
    index: nat,
) -> Seq<char> {
    "  "@ + reg + " = getelementptr inbounds %struct."@ + class + ", %struct."@ + class + "* "@
        + object + ", i32 0, i32 "@ + decimal(index) + "\n"@
}

/// Computes the address of the field at `index` of an object.
pub fn field_address_text(reg: &str, class: &str, object: &str, index: usize) -> (r: String)
    ensures
        r@ == field_address(reg@, class@, object@, index as nat),
{
    String::from_str("  ").concat(reg).concat(" = getelementptr inbounds %struct.").concat(
        class,
    ).concat(", %struct.").concat(class).concat("* ").concat(object).concat(
        ", i32 0, i32 ",
    ).concat(decimal_text(index as u128).as_str()).concat("\n")
}

/// Loads an integer through a pointer held in a temporary.
pub open spec fn load_word(reg: Seq<char>, pointer: Seq<char>) -> Seq<char> {
    "  "@ + reg + " = load i32, i32* "@ + pointer + "\n"@
}

/// Loads an integer through a pointer held in a temporary.
pub fn load_word_text(reg: &str, pointer: &str) -> (r: String)
    ensures
        r@ == load_word(reg@, pointer@),
{
    String::from_str("  ").concat(reg).concat(" = load i32, i32* ").concat(pointer).concat("\n")
}

/// Stores an integer through a pointer held in a temporary.
pub open spec fn store_word(value: Seq<char>, pointer: Seq<char>) -> Seq<char> {
    "  store i32 "@ + value + ", i32* "@ + pointer + "\n"@
}

/// Stores an integer through a pointer held in a temporary.
pub fn store_word_text(value: &str, pointer: &str) -> (r: String)
    ensures
        r@ == store_word(value@, pointer@),
{
    String::from_str("  store i32 ").concat(value).concat(", i32* ").concat(pointer).concat("\n")
}

/// Computes the address of an element of an array variable; the bounds are
/// not checked.
pub open spec fn element_address(
    reg: Seq<char>,
    len: nat,
    name: Seq<char>,
    index: Seq<char>,
) -> Seq<char> {
    "  "@ + reg + " = getelementptr inbounds ["@ + decimal(len) + " x i32], ["@ + decimal(len)
        + " x i32]* %"@ + name + "_ptr, i32 0, i32 "@ + index + "\n"@
}

/// Computes the address of an element of an array variable; the bounds are
/// not checked.
pub fn element_address_text(reg: &str, len: usize, name: &str, index: &str) -> (r: String)
    ensures
        r@ == element_address(reg@, len as nat, name@, index@),
{
    let n = decimal_text(len as u128);
    String::from_str("  ").concat(reg).concat(" = getelementptr inbounds [").concat(
        n.as_str(),
    ).concat(" x i32], [").concat(n.as_str()).concat(" x i32]* %").concat(name).concat(
        "_ptr, i32 0, i32 ",
    ).concat(index).concat("\n")
}

/// Calls a function that returns an integer.
pub open spec fn call_line(reg: Seq<char>, function: Seq<char>, args: Seq<char>) -> Seq<char> {
    "  "@ + reg + " = call i32 @"@ + function + "("@ + args + ")\n"@
}

/// Calls a function that returns an integer.
pub fn call_line_text(reg: &str, function: &str, args: &str) -> (r: String)
    ensures
        r@ == call_line(reg@, function@, args@),
{
    String::from_str("  ").concat(reg).concat(" = call i32 @").concat(function).concat("(").concat(
        args,
    ).concat(")\n")
}

/// Computes the address of the first byte of a pooled string constant.
pub open spec fn literal_address(reg: Seq<char>, len: nat, constant: Seq<char>) -> Seq<char> {
    "  "@ + reg + " = getelementptr inbounds ["@ + decimal(len) + " x i8], ["@ + decimal(len)
        + " x i8]* "@ + constant + ", i32 0, i32 0\n"@
}

/// Computes the address of the first byte of a pooled string constant.
pub fn literal_address_text(reg: &str, len: u128, constant: &str) -> (r: String)
    ensures
        r@ == literal_address(reg@, len as nat, constant@),
{
    let n = decimal_text(len);
    String::from_str("  ").concat(reg).concat(" = getelementptr inbounds [").concat(
        n.as_str(),
    ).concat(" x i8], [").concat(n.as_str()).concat(" x i8]* ").concat(constant).concat(
        ", i32 0, i32 0\n",
    )
}

/// Prints the byte sequence that a pointer leads to.
pub open spec fn print_pointer(pointer: Seq<char>) -> Seq<char> {
    "  call i32 (i8*, ...) @printf(i8* getelementptr inbounds ([4 x i8], [4 x i8]* @fmt_str, i32 0, i32 0), i8* "@
        + pointer + ")\n"@
}

/// Prints the byte sequence that a pointer leads to.
pub fn print_pointer_text(pointer: &str) -> (r: String)
    ensures
        r@ == print_pointer(pointer@),
{
    String::from_str(
        "  call i32 (i8*, ...) @printf(i8* getelementptr inbounds ([4 x i8], [4 x i8]* @fmt_str, i32 0, i32 0), i8* ",
    ).concat(pointer).concat(")\n")
}

/// Prints a pooled string constant.
pub open spec fn print_literal(len: nat, constant: Seq<char>) -> Seq<char> {
    "  call i32 (i8*, ...) @printf(i8* getelementptr inbounds ([4 x i8], [4 x i8]* @fmt_str, i32 0, i32 0), i8* getelementptr inbounds (["@
        + decimal(len) + " x i8], ["@ + decimal(len) + " x i8]* "@ + constant
        + ", i32 0, i32 0))\n"@
}

/// Prints a pooled string constant.
pub fn print_literal_text(len: u128, constant: &str) -> (r: String)
    ensures
        r@ == print_literal(len as nat, constant@),
{
    let n = decimal_text(len);
    String::from_str(
        "  call i32 (i8*, ...) @printf(i8* getelementptr inbounds ([4 x i8], [4 x i8]* @fmt_str, i32 0, i32 0), i8* getelementptr inbounds ([",
    ).concat(n.as_str()).concat(" x i8], [").concat(n.as_str()).concat(" x i8]* ").concat(
        constant,
    ).concat(", i32 0, i32 0))\n")
}

/// Prints an integer.
pub open spec fn print_number(value: Seq<char>) -> Seq<char> {
    "  call i32 (i8*, ...) @printf(i8* getelementptr inbounds ([4 x i8], [4 x i8]* @fmt_num, i32 0, i32 0), i32 "@
        + value + ")\n"@
}

/// Prints an integer.
pub fn print_number_text(value: &str) -> (r: String)
    ensures
        r@ == print_number(value@),
{
    String::from_str(
        "  call i32 (i8*, ...) @printf(i8* getelementptr inbounds ([4 x i8], [4 x i8]* @fmt_num, i32 0, i32 0), i32 ",
    ).concat(value).concat(")\n")
}

/// Turns an integer into a pointer.
pub open spec fn int_to_pointer(reg: Seq<char>, value: Seq<char>) -> Seq<char> {
    "  "@ + reg + " = inttoptr i32 "@ + value + " to i8*\n"@
}

/// Turns an integer into a pointer.
pub fn int_to_pointer_text(reg: &str, value: &str) -> (r: String)
    ensures
        r@ == int_to_pointer(reg@, value@),
{
    String::from_str("  ").concat(reg).concat(" = inttoptr i32 ").concat(value).concat(" to i8*\n")
}

/// Turns a pointer into an integer.
pub open spec fn pointer_to_int(reg: Seq<char>, value: Seq<char>) -> Seq<char> {
    "  "@ + reg + " = ptrtoint i8* "@ + value + " to i32\n"@
}

/// Turns a pointer into an integer.
pub fn pointer_to_int_text(reg: &str, value: &str) -> (r: String)
    ensures
        r@ == pointer_to_int(reg@, value@),
{
    String::from_str("  ").concat(reg).concat(" = ptrtoint i8* ").concat(value).concat(" to i32\n")
}

/// An arithmetic instruction or a comparison on two integers; `operation`
/// is the instruction's name with its condition, if it has one.
pub open spec fn binary_line(
    reg: Seq<char>,
    operation: Seq<char>,
    left: Seq<char>,
    right: Seq<char>,
) -> Seq<char> {
    "  "@ + reg + " = "@ + operation + " i32 "@ + left + ", "@ + right + "\n"@
}

/// An arithmetic instruction or a comparison on two integers.
pub fn binary_line_text(reg: &str, operation: &str, left: &str, right: &str) -> (r: String)
    ensures
        r@ == binary_line(reg@, operation@, left@, right@),
{
    String::from_str("  ").concat(reg).concat(" = ").concat(operation).concat(" i32 ").concat(
        left,
    ).concat(", ").concat(right).concat("\n")
}

/// Returns an integer from the function.
pub open spec fn return_line(value: Seq<char>) -> Seq<char> {
    "  ret i32 "@ + value + "\n"@
}

/// Returns an integer from the function.
pub fn return_line_text(value: &str) -> (r: String)
    ensures
        r@ == return_line(value@),
{
    String::from_str("  ret i32 ").concat(value).concat("\n")
}

/// Branches to one of two targets on a condition.
pub open spec fn branch_if(condition: Seq<char>, yes: Seq<char>, no: Seq<char>) -> Seq<char> {
    "  br i1 "@ + condition + ", label %"@ + yes + ", label %"@ + no + "\n"@
}

/// Branches to one of two targets on a condition.
pub fn branch_if_text(condition: &str, yes: &str, no: &str) -> (r: String)
    ensures
        r@ == branch_if(condition@, yes@, no@),
{
    String::from_str("  br i1 ").concat(condition).concat(", label %").concat(yes).concat(
        ", label %",
    ).concat(no).concat("\n")
}

/// Branches to a target.
pub open spec fn branch(target: Seq<char>) -> Seq<char> {
    "  br label %"@ + target + "\n"@
}

/// Branches to a target.
pub fn branch_text(target: &str) -> (r: String)
    ensures
        r@ == branch(target@),
{
    String::from_str("  br label %").concat(target).concat("\n")
}

/// Marks a branch target.
pub open spec fn label_line(label: Seq<char>) -> Seq<char> {
    label + ":\n"@
}

/// Marks a branch target.
pub fn label_line_text(label: &str) -> (r: String)
    ensures
        r@ == label_line(label@),
{
    String::from_str(label).concat(":\n")
}

/// Opens the definition of a function.
pub open spec fn define_line(name: Seq<char>, params: Seq<char>) -> Seq<char> {
    "\ndefine i32 @"@ + name + "("@ + params + ") {\nentry:\n"@
}

/// Opens the definition of a function.
pub fn define_line_text(name: &str, params: &str) -> (r: String)
    ensures
        r@ == define_line(name@, params@),
{
    String::from_str("\ndefine i32 @").concat(name).concat("(").concat(params).concat(
        ") {\nentry:\n",
    )
}

/// One incoming parameter in a function's header.
pub open spec fn param_text(ty: TypeModel, position: nat) -> Seq<char> {
    type_text(ty) + " "@ + arg_name(position)
}

/// One incoming parameter in a function's header.
pub fn param_text_of(ty: &ValueType, position: usize) -> (r: String)
    ensures
        r@ == param_text(ty@, position as nat),
{
    type_text_of(ty).concat(" ").concat(arg_name_text(position).as_str())
}

/// An argument passed at integer width.
pub open spec fn word_arg(value: Seq<char>) -> Seq<char> {
    "i32 "@ + value
}

/// An argument passed at integer width.
pub fn word_arg_text(value: &str) -> (r: String)
    ensures
        r@ == word_arg(value@),
{
    String::from_str("i32 ").concat(value)
}

/// The receiver of a method call, passed as its first argument.
pub open spec fn receiver_arg(class: Seq<char>, object: Seq<char>) -> Seq<char> {
    "%struct."@ + class + "* "@ + object
}

/// The receiver of a method call, passed as its first argument.
pub fn receiver_arg_text(class: &str, object: &str) -> (r: String)
    ensures
        r@ == receiver_arg(class@, object@),
{
    String::from_str("%struct.").concat(class).concat("* ").concat(object)
}

/// The name of the function that a method is compiled to.
pub open spec fn method_name(class: Seq<char>, method: Seq<char>) -> Seq<char> {
    class + "_"@ + method
}

/// The name of the function that a method is compiled to.
pub fn method_name_text(class: &str, method: &str) -> (r: String)
    ensures
        r@ == method_name(class@, method@),
{
    String::from_str(class).concat("_").concat(method)
}

/// The encoded length of a pooled string: its bytes and the terminating null.
pub open spec fn encoded_len(content: Seq<char>) -> nat {
    encode_utf8(content).len() + 1
}

/// The definition of a pooled string constant: its bytes, escaped, and a
/// terminating null.
pub open spec fn constant_line(id: nat, content: Seq<char>) -> Seq<char> {
    "@str."@ + decimal(id) + " = private unnamed_addr constant ["@ + decimal(encoded_len(content))
        + " x i8] c\""@ + escaped(encode_utf8(content)) + "\\00\"\n"@
}

/// The definition of a pooled string constant.
pub fn constant_line_text(id: usize, content: &str) -> (r: String)
    ensures
        r@ == constant_line(id as nat, content@),
{
    let bytes = content.as_bytes();
    let mut r = String::from_str("@str.").concat(decimal_text(id as u128).as_str()).concat(
        " = private unnamed_addr constant [",
    ).concat(decimal_text(bytes.len() as u128 + 1).as_str()).concat(" x i8] c\"");
    push_escaped(&mut r, bytes);
    r.concat("\\00\"\n")
}

} // verus!
