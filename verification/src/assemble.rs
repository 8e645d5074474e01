//! The assembly of the module's text, once every statement is lowered.

use crate::env::{ClassInfo, ClassModel, ClassRegistry, StringPool};
use crate::expr::lemma_joined_push;
use crate::ir::{constant_line, constant_line_text};
use crate::model::GenModel;
use crate::text::{joined, push_joined};
use vstd::prelude::*;

verus! {

/// The first lines of every module: a comment, the declarations of the
/// external functions that the generated code calls, and the constants that
/// it uses to print and at startup.
pub open spec fn preamble() -> Seq<char> {
    "; Module: aura_lang\n"@ + "declare i32 @printf(i8*, ...)\n"@ + "declare i32 @system(i8*)\n"@
        + "declare i8* @malloc(i32)\n"@
        + "@fmt_num = private unnamed_addr constant [4 x i8] c\"%d\\0A\\00\"\n"@
        + "@fmt_str = private unnamed_addr constant [4 x i8] c\"%s\\0A\\00\"\n"@
        + "@cmd_chcp = private unnamed_addr constant [17 x i8] c\"chcp 65001 > nul\\00\"\n"@
}

/// The first lines of every module.
pub fn preamble_text() -> (r: String)
    ensures
        r@ == preamble(),
{
    String::from_str("; Module: aura_lang\n").concat("declare i32 @printf(i8*, ...)\n").concat(
        "declare i32 @system(i8*)\n",
    ).concat("declare i8* @malloc(i32)\n").concat(
        "@fmt_num = private unnamed_addr constant [4 x i8] c\"%d\\0A\\00\"\n",
    ).concat("@fmt_str = private unnamed_addr constant [4 x i8] c\"%s\\0A\\00\"\n").concat(
        "@cmd_chcp = private unnamed_addr constant [17 x i8] c\"chcp 65001 > nul\\00\"\n",
    )
}

/// The types of `count` fields: every field is a 32-bit integer.
pub open spec fn field_types(count: nat) -> Seq<Seq<char>> {
    Seq::new(count, |i: int| "i32"@)
}

/// The definition of the aggregate type of a class.
pub open spec fn struct_line(class: ClassModel) -> Seq<char> {
    "%struct."@ + class.name + " = type { "@ + joined(field_types(class.fields.len())) + " }\n"@
}

/// The definition of the aggregate type of a class.
pub fn struct_line_text(class: &ClassInfo) -> (r: String)
    ensures
        r@ == struct_line(class@),
{
    let count = class.fields.len();
    let mut types = String::new();
    let mut i: usize = 0;
    assert(types@ =~= joined(field_types(0)));
    while i < count
        invariant
            i <= count,
            types@ == joined(field_types(i as nat)),
        decreases count - i,
    {
        push_joined(&mut types, i == 0, "i32");
        proof {
            lemma_joined_push(field_types(i as nat), "i32"@);
            assert(field_types(i as nat).push("i32"@) =~= field_types((i + 1) as nat));
        }
        i += 1;
    }
    String::from_str("%struct.").concat(class.name.as_str()).concat(" = type { ").concat(
        types.as_str(),
    ).concat(" }\n")
}

/// The definitions of the aggregate types of the classes, in their order.
pub open spec fn struct_lines(classes: Seq<ClassModel>) -> Seq<char>
    decreases classes.len(),
{
    if classes.len() == 0 {
        Seq::empty()
    } else {
        struct_lines(classes.drop_last()) + struct_line(classes.last())
    }
}

/// The definitions of the aggregate types of the registered classes.
pub fn struct_lines_text(classes: &ClassRegistry) -> (r: String)
    ensures
        r@ == struct_lines(classes@),
{
    let mut text = String::new();
    let mut i: usize = 0;
    assert(classes@.take(0) =~= Seq::<ClassModel>::empty());
    while i < classes.len()
        invariant
            i <= classes@.len(),
            text@ == struct_lines(classes@.take(i as int)),
        decreases classes@.len() - i,
    {
        proof {
            assert(classes@.take(i + 1).drop_last() =~= classes@.take(i as int));
            assert(classes@.take(i + 1).last() == classes@[i as int]);
        }
        text.append(struct_line_text(classes.get(i)).as_str());
        i += 1;
    }
    assert(classes@.take(i as int) =~= classes@);
    text
}

/// The definitions of the pooled string constants, by id.
pub open spec fn pool_lines(pool: Seq<Seq<char>>) -> Seq<char>
    decreases pool.len(),
{
    if pool.len() == 0 {
        Seq::empty()
    } else {
        pool_lines(pool.drop_last()) + constant_line((pool.len() - 1) as nat, pool.last())
    }
}

/// The definitions of the pooled string constants, by id.
pub fn pool_lines_text(pool: &StringPool) -> (r: String)
    ensures
        r@ == pool_lines(pool@),
{
    let mut text = String::new();
    let mut i: usize = 0;
    assert(pool@.take(0) =~= Seq::<Seq<char>>::empty());
    while i < pool.len()
        invariant
            i <= pool@.len(),
            text@ == pool_lines(pool@.take(i as int)),
        decreases pool@.len() - i,
    {
        proof {
            assert(pool@.take(i + 1).drop_last() =~= pool@.take(i as int));
            assert(pool@.take(i + 1).last() == pool@[i as int]);
        }
        text.append(constant_line_text(i, pool.get(i).as_str()).as_str());
        i += 1;
    }
    assert(pool@.take(i as int) =~= pool@);
    text
}

/// The start of the entry point: its header and the call that is made once
/// at startup.
pub open spec fn entry_open() -> Seq<char> {
    "\ndefine i32 @main() {\nentry:\n"@
        + "  call i32 @system(i8* getelementptr inbounds ([17 x i8], [17 x i8]* @cmd_chcp, i32 0, i32 0))\n"@
}

/// The end of the entry point: it returns success.
pub open spec fn entry_close() -> Seq<char> {
    "  ret i32 0\n}\n"@
}

/// The text of the module that a state stands for: the preamble, a type for
/// each class, a constant for each pooled string, the functions, and the
/// entry point with the top-level instructions.
pub open spec fn module_text(st: GenModel) -> Seq<char> {
    preamble() + struct_lines(st.classes) + pool_lines(st.pool) + "\n"@ + st.functions
        + entry_open() + st.main_body + entry_close()
}

/// The text of a module from its parts.
pub fn module(classes: &ClassRegistry, pool: &StringPool, functions: &str, main_body: &str) -> (r:
    String)
    ensures
        r@ == preamble() + struct_lines(classes@) + pool_lines(pool@) + "\n"@ + functions@
            + entry_open() + main_body@ + entry_close(),
{
    let open = String::from_str("\ndefine i32 @main() {\nentry:\n").concat(
        "  call i32 @system(i8* getelementptr inbounds ([17 x i8], [17 x i8]* @cmd_chcp, i32 0, i32 0))\n",
    );
    preamble_text().concat(struct_lines_text(classes).as_str()).concat(
        pool_lines_text(pool).as_str(),
    ).concat("\n").concat(functions).concat(open.as_str()).concat(main_body).concat(
        "  ret i32 0\n}\n",
    )
}

} // verus!
