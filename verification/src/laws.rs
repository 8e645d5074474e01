//! What holds of every compilation: the names of temporaries and branch
//! targets are never reused, equal string literals share one constant, a
//! variable keeps its type, and a class keeps its fields.

use crate::ast::{ExprModel, StmtModel};
use crate::error::Failure;
use crate::env::{class_names, fields_of, pool_id, pool_with, with_class, ClassModel};
use crate::ir::{label_name, load_slot, reg_name, return_line};
use crate::assemble::module_text;
use crate::model::{
    begin_program, bind_params, enter_function, failed, lower_args, lower_block, lower_elements,
    lower_expr, lower_function, lower_methods, lower_program, lower_stmt, lower_variable, operation,
    register_classes, Failed, GenModel, Lowered,
};
use crate::text::{decimal, lemma_decimal_injective, lemma_position, lemma_position_stable, position};
use crate::token::TokenKind;
use crate::types::TypeModel;
use vstd::prelude::*;

verus! {

/// Whether `b` starts with `a`.
pub open spec fn starts_with<T>(b: Seq<T>, a: Seq<T>) -> bool {
    a.len() <= b.len() && forall|i: int| 0 <= i < a.len() ==> a[i] == b[i]
}

/// Whether `after` may follow `before` in a compilation: the counters have
/// not gone back, and the pool and the class registry have only got longer.
pub open spec fn grows(before: GenModel, after: GenModel) -> bool {
    &&& before.next_reg <= after.next_reg
    &&& before.next_label <= after.next_label
    &&& starts_with(after.pool, before.pool)
    &&& starts_with(after.classes, before.classes)
}

/// Whether two states agree on all that only statements change.
pub open spec fn same_scope(before: GenModel, after: GenModel) -> bool {
    &&& before.vars == after.vars
    &&& before.classes == after.classes
    &&& before.current_class == after.current_class
    &&& before.in_function == after.in_function
    &&& before.next_label == after.next_label
    &&& before.functions == after.functions
}

/// Lowering an expression allocates temporaries and pool entries, and
/// appends instructions; it changes nothing else.
pub proof fn lemma_expr_frame(st: GenModel, e: ExprModel)
    ensures
        lower_expr(st, e) matches Ok(l) ==> grows(st, l.state) && same_scope(st, l.state),
    decreases e,
{
    match e {
        ExprModel::IndexAccess(_, index) => {
            lemma_expr_frame(st, *index);
        },
        ExprModel::Get(object, _) => {
            lemma_expr_frame(st, *object);
        },
        ExprModel::Assign(object, _, value) => {
            lemma_expr_frame(st, *object);
            if let Ok(o) = lower_expr(st, *object) {
                lemma_expr_frame(o.state, *value);
            }
        },
        ExprModel::MethodCall(object, _, args) => {
            lemma_expr_frame(st, *object);
            if let Ok(o) = lower_expr(st, *object) {
                lemma_args_frame(o.state, args);
            }
        },
        ExprModel::Call(_, args) => {
            if args.len() > 0 {
                lemma_expr_frame(st, args[0]);
            }
            lemma_args_frame(st, args);
        },
        ExprModel::Binary(left, _, right) => {
            lemma_expr_frame(st, *left);
            if let Ok(l) = lower_expr(st, *left) {
                lemma_expr_frame(l.state, *right);
            }
        },
        _ => {},
    }
}

/// Lowering the arguments of a call allocates temporaries and pool entries,
/// and appends instructions; it changes nothing else.
pub proof fn lemma_args_frame(st: GenModel, args: Seq<ExprModel>)
    ensures
        lower_args(st, args) matches Ok(a) ==> grows(st, a.state) && same_scope(st, a.state),
    decreases args,
{
    if args.len() > 0 {
        lemma_args_frame(st, args.drop_last());
        if let Ok(a) = lower_args(st, args.drop_last()) {
            lemma_expr_frame(a.state, args.last());
        }
    }
}

/// Lowering the elements of an array literal allocates temporaries and pool
/// entries, and appends instructions; it changes nothing else.
pub proof fn lemma_elements_frame(st: GenModel, name: Seq<char>, len: nat, elements: Seq<ExprModel>)
    ensures
        lower_elements(st, name, len, elements) matches Ok(done) ==> grows(st, done) && same_scope(
            st,
            done,
        ),
    decreases elements.len(),
{
    if elements.len() > 0 {
        lemma_elements_frame(st, name, len, elements.drop_last());
        if let Ok(s) = lower_elements(st, name, len, elements.drop_last()) {
            lemma_expr_frame(s, elements.last());
        }
    }
}

/// Binding the parameters of a function changes the symbol table and the
/// function's body, and nothing else.
pub proof fn lemma_bind_params_frame(st: GenModel, params: Seq<Seq<char>>)
    ensures
        grows(st, bind_params(st, params)),
        bind_params(st, params).in_function == st.in_function,
        bind_params(st, params).classes == st.classes,
        bind_params(st, params).functions == st.functions,
        bind_params(st, params).current_class == st.current_class,
    decreases params.len(),
{
    if params.len() > 0 {
        lemma_bind_params_frame(st, params.drop_last());
    }
}

/// Whether lowering `body` from `inner` leaves the counters no lower, the
/// pool and the classes no shorter, and the current class as it was.
pub open spec fn block_grows(inner: GenModel, body: Seq<StmtModel>) -> bool {
    lower_block(inner, body) matches Ok(done) ==> grows(inner, done) && done.current_class
        == inner.current_class
}

/// Compiling a function leaves the counters no lower and the pool and the
/// classes no shorter; the symbol table, the output target and the current
/// class are those of before.
pub proof fn lemma_function_frame(
    st: GenModel,
    name: Seq<char>,
    params: Seq<Seq<char>>,
    body: Seq<StmtModel>,
)
    requires
        forall|inner: GenModel| #[trigger] block_grows(inner, body),
    ensures
        lower_function(st, name, params, body) matches Ok(done) ==> grows(st, done) && done.vars
            == st.vars && done.in_function == st.in_function && done.current_class
            == st.current_class,
{
    if let Ok(inner) = enter_function(st, params) {
        let entered = GenModel {
            body: Seq::empty(),
            returned: false,
            in_function: true,
            vars: Map::empty(),
            ..st
        };
        lemma_bind_params_frame(entered, params);
        assert(grows(st, inner));
        assert(block_grows(inner, body));
    }
}

/// A statement that holds no other statement leaves the counters no lower,
/// the pool and the classes no shorter, and the current class as it was.
proof fn lemma_plain_frame(st: GenModel, s: StmtModel)
    requires
        s is VarDecl || s is Assignment || s is Print || s is ExprStmt || s is ReturnStmt,
    ensures
        lower_stmt(st, s) matches Ok(done) ==> grows(st, done) && done.current_class
            == st.current_class,
{
    match s {
        StmtModel::VarDecl(name, value) => {
            match value {
                ExprModel::ArrayLiteral(elements) => {
                    lemma_elements_frame(
                        crate::model::declare_array(st, name, elements.len()),
                        name,
                        elements.len(),
                        elements,
                    );
                },
                _ => {
                    lemma_expr_frame(st, value);
                },
            }
        },
        StmtModel::Assignment(_, value) => {
            lemma_expr_frame(st, value);
        },
        StmtModel::Print(value) => {
            lemma_expr_frame(st, value);
        },
        StmtModel::ExprStmt(value) => {
            lemma_expr_frame(st, value);
        },
        StmtModel::ReturnStmt(value) => {
            if let Some(e) = value {
                lemma_expr_frame(st, e);
            }
        },
        _ => {},
    }
}

/// A conditional leaves the counters no lower, the pool and the classes no
/// shorter and the current class as it was, if its blocks do.
proof fn lemma_if_frame(st: GenModel, s: StmtModel)
    requires
        s matches StmtModel::IfStmt(_, first, second) && (forall|inner: GenModel| #[trigger]
            block_grows(inner, first)) && (second matches Some(block) ==> forall|
            inner: GenModel,
        | #[trigger] block_grows(inner, block)),
    ensures
        lower_stmt(st, s) matches Ok(done) ==> grows(st, done) && done.current_class
            == st.current_class,
{
    if let StmtModel::IfStmt(condition, first, second) = s {
        lemma_expr_frame(st, condition);
        if let Ok(c) = lower_expr(st, condition) {
            let opened = crate::model::if_open(c, second is Some);
            assert(grows(st, opened));
            assert(block_grows(opened, first));
            if let Ok(s1) = lower_block(opened, first) {
                assert(grows(st, s1));
                if let Some(block) = second {
                    let middle = crate::model::if_else(c.state.next_label, s1);
                    assert(grows(st, middle));
                    assert(block_grows(middle, block));
                }
            }
        }
    }
}

/// A loop leaves the counters no lower, the pool and the classes no shorter
/// and the current class as it was, if its body does.
proof fn lemma_while_frame(st: GenModel, s: StmtModel)
    requires
        s matches StmtModel::WhileStmt(_, body) && forall|inner: GenModel| #[trigger]
            block_grows(inner, body),
    ensures
        lower_stmt(st, s) matches Ok(done) ==> grows(st, done) && done.current_class
            == st.current_class,
{
    if let StmtModel::WhileStmt(condition, body) = s {
        let opened = crate::model::while_open(st);
        assert(grows(st, opened));
        lemma_expr_frame(opened, condition);
        if let Ok(c) = lower_expr(opened, condition) {
            let tested = crate::model::while_test(st.next_label, c);
            assert(grows(st, tested));
            assert(block_grows(tested, body));
        }
    }
}

/// Lowering a statement leaves the counters no lower, the pool and the
/// classes no shorter, and the current class as it was.
pub proof fn lemma_stmt_frame(st: GenModel, s: StmtModel)
    ensures
        lower_stmt(st, s) matches Ok(done) ==> grows(st, done) && done.current_class
            == st.current_class,
    decreases s, 0nat,
{
    match s {
        StmtModel::BlockStmt(stmts) => {
            lemma_block_frame(st, stmts);
        },
        StmtModel::IfStmt(_, first, second) => {
            assert forall|inner: GenModel| #[trigger] block_grows(inner, first) by {
                lemma_block_frame(inner, first);
            }
            if let Some(block) = second {
                assert forall|inner: GenModel| #[trigger] block_grows(inner, block) by {
                    lemma_block_frame(inner, block);
                }
            }
            lemma_if_frame(st, s);
        },
        StmtModel::WhileStmt(_, body) => {
            assert forall|inner: GenModel| #[trigger] block_grows(inner, body) by {
                lemma_block_frame(inner, body);
            }
            lemma_while_frame(st, s);
        },
        StmtModel::FuncDecl(name, params, body) => {
            assert forall|inner: GenModel| #[trigger] block_grows(inner, body) by {
                lemma_block_frame(inner, body);
            }
            lemma_function_frame(st, name, params, body);
        },
        StmtModel::ClassDecl(name, fields, methods) => {
            let opened = GenModel {
                current_class: Some(name),
                ..st.register(name, fields)
            };
            assert(grows(st, opened));
            lemma_methods_frame(opened, name, methods);
        },
        _ => {
            lemma_plain_frame(st, s);
        },
    }
}

/// Lowering a block leaves the counters no lower, the pool and the classes
/// no shorter, and the current class as it was.
pub proof fn lemma_block_frame(st: GenModel, stmts: Seq<StmtModel>)
    ensures
        lower_block(st, stmts) matches Ok(done) ==> grows(st, done) && done.current_class
            == st.current_class,
    decreases stmts, 0nat,
{
    if stmts.len() > 0 {
        lemma_block_frame(st, stmts.drop_last());
        if let Ok(s) = lower_block(st, stmts.drop_last()) {
            lemma_stmt_frame(s, stmts.last());
        }
    }
}

/// Compiling the methods of a class leaves the counters no lower and the
/// pool and the classes no shorter, and keeps the symbol table and the
/// current class.
pub proof fn lemma_methods_frame(st: GenModel, class: Seq<char>, methods: Seq<StmtModel>)
    ensures
        lower_methods(st, class, methods) matches Ok(done) ==> grows(st, done) && done.vars
            == st.vars && done.current_class == st.current_class,
    decreases methods, 0nat,
{
    if methods.len() > 0 {
        lemma_methods_frame(st, class, methods.drop_last());
        if let Ok(s) = lower_methods(st, class, methods.drop_last()) {
            match methods.last() {
                StmtModel::FuncDecl(name, params, body) => {
                    assert forall|inner: GenModel| #[trigger] block_grows(inner, body) by {
                        lemma_block_frame(inner, body);
                    }
                    lemma_function_frame(
                        s,
                        crate::ir::method_name(class, name),
                        crate::model::method_params(params),
                        body,
                    );
                },
                _ => {},
            }
        }
    }
}

/// The pre-pass registers classes and changes nothing else.
pub proof fn lemma_register_classes_frame(st: GenModel, stmts: Seq<StmtModel>)
    ensures
        grows(st, register_classes(st, stmts)),
        register_classes(st, stmts).vars == st.vars,
    decreases stmts.len(),
{
    if stmts.len() > 0 {
        lemma_register_classes_frame(st, stmts.drop_last());
    }
}

/// The names of temporaries: two numbers give the same name only if they
/// are the same number.
pub proof fn temporaries_are_distinct(i: nat, j: nat)
    ensures
        reg_name(i) == reg_name(j) <==> i == j,
{
    lemma_decimal_injective(i, j);
    let prefix = "%tmp"@;
    assert(reg_name(i).subrange(prefix.len() as int, reg_name(i).len() as int) =~= decimal(i));
    assert(reg_name(j).subrange(prefix.len() as int, reg_name(j).len() as int) =~= decimal(j));
}

/// The names of branch targets: two numbers give the same name only if they
/// are the same number.
pub proof fn labels_are_distinct(i: nat, j: nat)
    ensures
        label_name(i) == label_name(j) <==> i == j,
{
    lemma_decimal_injective(i, j);
    let prefix = "L"@;
    assert(label_name(i).subrange(prefix.len() as int, label_name(i).len() as int) =~= decimal(i));
    assert(label_name(j).subrange(prefix.len() as int, label_name(j).len() as int) =~= decimal(j));
}

/// A temporary that is allocated later has another name than one that was
/// allocated earlier, and so has a branch target: `earlier` and `later` are
/// the states in which the two are allocated.
pub proof fn later_allocations_differ(earlier: GenModel, later: GenModel)
    requires
        grows(earlier.take_reg().take_label(), later),
    ensures
        earlier.reg(0) != later.reg(0),
        label_name(earlier.next_label) != label_name(later.next_label),
{
    temporaries_are_distinct(earlier.next_reg, later.next_reg);
    labels_are_distinct(earlier.next_label, later.next_label);
}

/// No temporary and no branch target is allocated twice in a compilation:
/// each allocation takes the number of its counter, and lowering a program
/// never sets a counter back. With `temporaries_are_distinct` and
/// `labels_are_distinct`, no two allocations in a module share a name.
pub proof fn counters_never_go_back(st: GenModel, stmts: Seq<StmtModel>)
    ensures
        st.take_reg().next_reg == st.next_reg + 1,
        st.take_label().next_label == st.next_label + 1,
        lower_program(st, stmts) matches Ok(done) ==> st.next_reg <= done.next_reg
            && st.next_label <= done.next_label,
{
    let begun = begin_program(st, stmts);
    lemma_register_classes_frame(
        GenModel { functions: Seq::empty(), main_body: Seq::empty(), ..st },
        stmts,
    );
    lemma_block_frame(begun, stmts);
}

/// Equal string literals share one pool constant, and different literals
/// never do. `first` is the state in which a literal `a` is lowered and
/// `later` any state whose pool starts with the pool that this left, as the
/// pool of every later state of the compilation does; `b` is a literal
/// lowered in that state.
pub proof fn equal_literals_share_a_constant(
    first: GenModel,
    a: Seq<char>,
    later: GenModel,
    b: Seq<char>,
)
    requires
        starts_with(later.pool, first.intern(a).pool),
    ensures
        pool_id(later.pool, b) == pool_id(first.pool, a) <==> a == b,
{
    let before = first.pool;
    let with_a = pool_with(before, a);
    let id = pool_id(before, a);
    lemma_position(before, a);
    lemma_position(with_a, a);
    assert(position(with_a, a) == Some(id as int)) by {
        if position(before, a) is None {
            assert(with_a.drop_last() =~= before);
        }
    }
    let more = later.pool.skip(with_a.len() as int);
    assert(with_a + more =~= later.pool);
    lemma_position_stable(with_a, more, a);
    lemma_position(later.pool, a);
    lemma_position(later.pool, b);
}

/// The pool of string literals only gets longer while a statement is
/// lowered: no entry is removed or changed.
pub proof fn pool_only_grows(st: GenModel, s: StmtModel)
    ensures
        lower_stmt(st, s) matches Ok(done) ==> starts_with(done.pool, st.pool),
{
    lemma_stmt_frame(st, s);
}

/// What a variable is bound to, if it is bound.
pub open spec fn binding(st: GenModel, name: Seq<char>) -> Option<TypeModel> {
    if st.vars.contains_key(name) {
        Some(st.vars[name])
    } else {
        None
    }
}

/// Whether a statement declares the variable `name` in the scope in which
/// it stands. The body of a function is a scope of its own.
pub open spec fn declares(s: StmtModel, name: Seq<char>) -> bool
    decreases s,
{
    match s {
        StmtModel::VarDecl(declared, _) => declared == name,
        StmtModel::BlockStmt(stmts) => any_declares(stmts, name),
        StmtModel::WhileStmt(_, body) => any_declares(body, name),
        StmtModel::IfStmt(_, first, second) => any_declares(first, name) || match second {
            Some(block) => any_declares(block, name),
            None => false,
        },
        _ => false,
    }
}

/// Whether one of the statements declares the variable `name`.
pub open spec fn any_declares(stmts: Seq<StmtModel>, name: Seq<char>) -> bool
    decreases stmts,
{
    if stmts.len() == 0 {
        false
    } else {
        any_declares(stmts.drop_last(), name) || declares(stmts.last(), name)
    }
}

/// Whether lowering `body` from `inner` leaves the binding of `name` as it
/// was.
pub open spec fn block_keeps(inner: GenModel, body: Seq<StmtModel>, name: Seq<char>) -> bool {
    lower_block(inner, body) matches Ok(done) ==> binding(done, name) == binding(inner, name)
}

/// A statement that holds no other statement and does not declare `name`
/// leaves its binding as it was.
proof fn lemma_plain_types(st: GenModel, s: StmtModel, name: Seq<char>)
    requires
        s is VarDecl || s is Assignment || s is Print || s is ExprStmt || s is ReturnStmt
            || s is FuncDecl,
        !declares(s, name),
    ensures
        lower_stmt(st, s) matches Ok(done) ==> binding(done, name) == binding(st, name),
{
    match s {
        StmtModel::VarDecl(declared, value) => {
            match value {
                ExprModel::ArrayLiteral(elements) => {
                    lemma_elements_frame(
                        crate::model::declare_array(st, declared, elements.len()),
                        declared,
                        elements.len(),
                        elements,
                    );
                },
                _ => {
                    lemma_expr_frame(st, value);
                },
            }
        },
        StmtModel::Assignment(_, value) => {
            lemma_expr_frame(st, value);
        },
        StmtModel::Print(value) => {
            lemma_expr_frame(st, value);
        },
        StmtModel::ExprStmt(value) => {
            lemma_expr_frame(st, value);
        },
        StmtModel::ReturnStmt(value) => {
            if let Some(e) = value {
                lemma_expr_frame(st, e);
            }
        },
        _ => {},
    }
}

/// A conditional leaves the binding of `name` as it was, if its blocks do.
proof fn lemma_if_types(st: GenModel, s: StmtModel, name: Seq<char>)
    requires
        s matches StmtModel::IfStmt(_, first, second) && (forall|inner: GenModel| #[trigger]
            block_keeps(inner, first, name)) && (second matches Some(block) ==> forall|
            inner: GenModel,
        | #[trigger] block_keeps(inner, block, name)),
    ensures
        lower_stmt(st, s) matches Ok(done) ==> binding(done, name) == binding(st, name),
{
    if let StmtModel::IfStmt(condition, first, second) = s {
        lemma_expr_frame(st, condition);
        if let Ok(c) = lower_expr(st, condition) {
            let opened = crate::model::if_open(c, second is Some);
            assert(block_keeps(opened, first, name));
            if let Ok(s1) = lower_block(opened, first) {
                if let Some(block) = second {
                    let middle = crate::model::if_else(c.state.next_label, s1);
                    assert(block_keeps(middle, block, name));
                }
            }
        }
    }
}

/// A loop leaves the binding of `name` as it was, if its body does.
proof fn lemma_while_types(st: GenModel, s: StmtModel, name: Seq<char>)
    requires
        s matches StmtModel::WhileStmt(_, body) && forall|inner: GenModel| #[trigger]
            block_keeps(inner, body, name),
    ensures
        lower_stmt(st, s) matches Ok(done) ==> binding(done, name) == binding(st, name),
{
    if let StmtModel::WhileStmt(condition, body) = s {
        let opened = crate::model::while_open(st);
        lemma_expr_frame(opened, condition);
        if let Ok(c) = lower_expr(opened, condition) {
            let tested = crate::model::while_test(st.next_label, c);
            assert(block_keeps(tested, body, name));
        }
    }
}

/// A variable keeps its type: a statement that does not declare `name`
/// leaves its binding as it was.
pub proof fn types_are_stable(st: GenModel, s: StmtModel, name: Seq<char>)
    requires
        !declares(s, name),
    ensures
        lower_stmt(st, s) matches Ok(done) ==> binding(done, name) == binding(st, name),
    decreases s,
{
    match s {
        StmtModel::BlockStmt(stmts) => {
            block_types_are_stable(st, stmts, name);
        },
        StmtModel::IfStmt(_, first, second) => {
            assert forall|inner: GenModel| #[trigger] block_keeps(inner, first, name) by {
                block_types_are_stable(inner, first, name);
            }
            if let Some(block) = second {
                assert forall|inner: GenModel| #[trigger] block_keeps(inner, block, name) by {
                    block_types_are_stable(inner, block, name);
                }
            }
            lemma_if_types(st, s, name);
        },
        StmtModel::WhileStmt(_, body) => {
            assert forall|inner: GenModel| #[trigger] block_keeps(inner, body, name) by {
                block_types_are_stable(inner, body, name);
            }
            lemma_while_types(st, s, name);
        },
        StmtModel::ClassDecl(class, fields, methods) => {
            let opened = GenModel {
                current_class: Some(class),
                ..st.register(class, fields)
            };
            lemma_methods_frame(opened, class, methods);
        },
        _ => {
            lemma_plain_types(st, s, name);
        },
    }
}

/// A variable keeps its type through a block none of whose statements
/// declares it.
pub proof fn block_types_are_stable(st: GenModel, stmts: Seq<StmtModel>, name: Seq<char>)
    requires
        !any_declares(stmts, name),
    ensures
        lower_block(st, stmts) matches Ok(done) ==> binding(done, name) == binding(st, name),
    decreases stmts,
{
    if stmts.len() > 0 {
        block_types_are_stable(st, stmts.drop_last(), name);
        if let Ok(s) = lower_block(st, stmts.drop_last()) {
            types_are_stable(s, stmts.last(), name);
        }
    }
}

/// A load of a variable has the form of the type that the variable is bound
/// to.
pub proof fn loads_follow_the_binding(st: GenModel, name: Seq<char>)
    ensures
        lower_variable(st, name) matches Ok(l) ==> binding(st, name) == Some(l.value.ty)
            && l.state == st.take_reg().emit(load_slot(st.reg(0), l.value.ty, name)),
{
}

/// A class that is registered keeps its fields when the registry gets
/// longer.
pub proof fn lemma_class_kept(before: Seq<ClassModel>, after: Seq<ClassModel>, class: Seq<char>)
    requires
        starts_with(after, before),
        fields_of(before, class) is Some,
    ensures
        fields_of(after, class) == fields_of(before, class),
{
    let names = class_names(before);
    let more = class_names(after).skip(before.len() as int);
    assert(names + more =~= class_names(after));
    lemma_position_stable(names, more, class);
    lemma_position(names, class);
}

/// Registering a class under a name that is registered already changes
/// nothing: the first declaration decides the fields.
pub proof fn first_declaration_decides(
    classes: Seq<ClassModel>,
    class: Seq<char>,
    fields: Seq<Seq<char>>,
)
    requires
        fields_of(classes, class) is Some,
    ensures
        with_class(classes, class, fields) == classes,
{
}

/// The fields of a class never change: once a class is registered, lowering
/// a statement leaves its field list, and so the index of each field, as it
/// was.
pub proof fn class_fields_never_change(st: GenModel, s: StmtModel, class: Seq<char>)
    requires
        fields_of(st.classes, class) is Some,
    ensures
        lower_stmt(st, s) matches Ok(done) ==> fields_of(done.classes, class) == fields_of(
            st.classes,
            class,
        ),
{
    lemma_stmt_frame(st, s);
    if let Ok(done) = lower_stmt(st, s) {
        lemma_class_kept(st.classes, done.classes, class);
    }
}

/// The fields of a class are the same through the whole compilation of a
/// program: what the pass over the top-level declarations registered stays
/// to the end.
pub proof fn class_fields_fixed_for_the_program(st: GenModel, stmts: Seq<StmtModel>, class: Seq<char>)
    requires
        fields_of(begin_program(st, stmts).classes, class) is Some,
    ensures
        lower_program(st, stmts) matches Ok(done) ==> fields_of(done.classes, class) == fields_of(
            begin_program(st, stmts).classes,
            class,
        ),
{
    lemma_block_frame(begin_program(st, stmts), stmts);
    if let Ok(done) = lower_program(st, stmts) {
        lemma_class_kept(begin_program(st, stmts).classes, done.classes, class);
    }
}

/// The text of a module depends on nothing but the state in which the
/// generator starts and the statements: compiling the same statements twice
/// from the same state gives the same text, or the same failure.
pub proof fn compilation_is_deterministic(a: GenModel, b: GenModel, stmts: Seq<StmtModel>)
    requires
        a == b,
    ensures
        lower_program(a, stmts) == lower_program(b, stmts),
        lower_program(a, stmts) matches Ok(done) ==> module_text(done) == module_text(
            lower_program(b, stmts)->Ok_0,
        ),
{
}

/// A use of a variable fails as undefined exactly when the symbol table
/// does not bind it, and the failure changes nothing: no temporary is taken
/// and nothing is appended.
pub proof fn unbound_variable_changes_nothing(st: GenModel, name: Seq<char>)
    ensures
        !st.vars.contains_key(name) ==> lower_expr(st, ExprModel::Variable(name)) == failed::<
            Lowered,
        >(st, Failure::UndefinedVariable(name)),
        st.vars.contains_key(name) ==> !(lower_expr(st, ExprModel::Variable(name)) matches Err(f)
            && f.failure is UndefinedVariable),
{
}

/// The construction of an object of a class that is not registered fails
/// and changes nothing: nothing is allocated and no temporary is taken.
pub proof fn unknown_class_changes_nothing(st: GenModel, class: Seq<char>)
    requires
        fields_of(st.classes, class) is None,
    ensures
        lower_expr(st, ExprModel::New(class)) == failed::<Lowered>(
            st,
            Failure::UnknownClass(class),
        ),
{
}

/// An index on a variable that is bound to anything but an array fails and
/// changes nothing, whatever the index is.
pub proof fn index_needs_an_array(st: GenModel, name: Seq<char>, index: ExprModel)
    requires
        st.vars.contains_key(name),
        !(st.vars[name] is Array),
    ensures
        lower_expr(st, ExprModel::IndexAccess(name, Box::new(index))) == failed::<Lowered>(
            st,
            Failure::NotAnArray(name),
        ),
{
}

/// An array literal that stands as an expression fails and changes nothing.
pub proof fn array_literal_out_of_place_changes_nothing(st: GenModel, items: Seq<ExprModel>)
    ensures
        lower_expr(st, ExprModel::ArrayLiteral(items)) == failed::<Lowered>(
            st,
            Failure::InvalidArrayLiteralContext,
        ),
{
}

/// An arithmetic operator on operands that are not both integers fails once
/// the operands are lowered, and appends no instruction of its own: the
/// state is the one that the operands left.
pub proof fn arithmetic_needs_integers(
    st: GenModel,
    left: ExprModel,
    op: TokenKind,
    right: ExprModel,
)
    requires
        operation(op) matches Some(o) && o.arithmetic,
        lower_expr(st, left) matches Ok(l) && lower_expr(l.state, right) matches Ok(r) && !(
        l.value.ty is Int && r.value.ty is Int),
    ensures
        lower_expr(st, ExprModel::Binary(Box::new(left), op, Box::new(right))) == failed::<
            Lowered,
        >(
            lower_expr(lower_expr(st, left)->Ok_0.state, right)->Ok_0.state,
            Failure::UnsupportedOperandType,
        ),
{
}

/// A print succeeds for exactly the values that are integers or strings.
/// For any other value it fails once the value is lowered, and appends no
/// print: the state is the one that the value left.
pub proof fn only_integers_and_strings_are_printed(st: GenModel, value: ExprModel)
    requires
        lower_expr(st, value) is Ok,
    ensures
        ({
            let v = lower_expr(st, value)->Ok_0;
            if v.value.ty is Int || v.value.ty is Str {
                lower_stmt(st, StmtModel::Print(value)) is Ok
            } else {
                lower_stmt(st, StmtModel::Print(value)) == failed::<GenModel>(
                    v.state,
                    Failure::UnprintableType,
                )
            }
        }),
{
}

/// Whether `text` ends with `tail`.
pub open spec fn ends_with(text: Seq<char>, tail: Seq<char>) -> bool {
    tail.len() <= text.len() && text.subrange(text.len() - tail.len(), text.len() as int) == tail
}

/// Whether the last instruction of `text` is a return.
pub open spec fn ends_with_return(text: Seq<char>) -> bool {
    exists|value: Seq<char>| ends_with(text, #[trigger] return_line(value))
}

/// Whether the state says of the body of its function only what is so: if it
/// says that the body ends with a return, the body does.
pub open spec fn return_recorded(st: GenModel) -> bool {
    st.returned ==> ends_with_return(st.body)
}

/// Whether `after` says of the body no more than `before` did: the body and
/// what is said of it are the same, or nothing is said.
pub open spec fn keeps_record(before: GenModel, after: GenModel) -> bool {
    (after.body == before.body && after.returned == before.returned) || !after.returned
}

/// A text that is put behind another ends the whole.
pub proof fn lemma_ends_with_tail(text: Seq<char>, tail: Seq<char>)
    ensures
        ends_with(text + tail, tail),
{
    assert((text + tail).subrange((text + tail).len() - tail.len(), (text + tail).len() as int)
        =~= tail);
}

/// What ends a text, followed by `more`, ends the text followed by `more`,
/// whatever stands before the text.
pub proof fn lemma_ends_with_more(
    before: Seq<char>,
    text: Seq<char>,
    tail: Seq<char>,
    more: Seq<char>,
)
    requires
        ends_with(text, tail),
    ensures
        ends_with(before + text + more, tail + more),
{
    let whole = before + text + more;
    let end = tail + more;
    assert(whole.subrange(whole.len() - end.len(), whole.len() as int) =~= end) by {
        assert forall|i: int| 0 <= i < end.len() implies whole[whole.len() - end.len() + i]
            == end[i] by {
            if i < tail.len() {
                assert(text.subrange(text.len() - tail.len(), text.len() as int)[i] == tail[i]);
            }
        }
    }
}

/// Lowering an expression says nothing new of the body of the function.
pub proof fn lemma_expr_record(st: GenModel, e: ExprModel)
    ensures
        lower_expr(st, e) matches Ok(l) ==> keeps_record(st, l.state),
    decreases e,
{
    match e {
        ExprModel::IndexAccess(_, index) => {
            lemma_expr_record(st, *index);
        },
        ExprModel::Get(object, _) => {
            lemma_expr_record(st, *object);
        },
        ExprModel::Assign(object, _, value) => {
            lemma_expr_record(st, *object);
            if let Ok(o) = lower_expr(st, *object) {
                lemma_expr_record(o.state, *value);
            }
        },
        ExprModel::MethodCall(object, _, args) => {
            lemma_expr_record(st, *object);
            if let Ok(o) = lower_expr(st, *object) {
                lemma_args_record(o.state, args);
            }
        },
        ExprModel::Call(_, args) => {
            if args.len() > 0 {
                lemma_expr_record(st, args[0]);
            }
            lemma_args_record(st, args);
        },
        ExprModel::Binary(left, _, right) => {
            lemma_expr_record(st, *left);
            if let Ok(l) = lower_expr(st, *left) {
                lemma_expr_record(l.state, *right);
            }
        },
        _ => {},
    }
}

/// Lowering the arguments of a call says nothing new of the body of the
/// function.
pub proof fn lemma_args_record(st: GenModel, args: Seq<ExprModel>)
    ensures
        lower_args(st, args) matches Ok(a) ==> keeps_record(st, a.state),
    decreases args,
{
    if args.len() > 0 {
        lemma_args_record(st, args.drop_last());
        if let Ok(a) = lower_args(st, args.drop_last()) {
            lemma_expr_record(a.state, args.last());
        }
    }
}

/// Lowering the elements of an array literal says nothing new of the body
/// of the function.
pub proof fn lemma_elements_record(
    st: GenModel,
    name: Seq<char>,
    len: nat,
    elements: Seq<ExprModel>,
)
    ensures
        lower_elements(st, name, len, elements) matches Ok(done) ==> keeps_record(st, done),
    decreases elements.len(),
{
    if elements.len() > 0 {
        lemma_elements_record(st, name, len, elements.drop_last());
        if let Ok(s) = lower_elements(st, name, len, elements.drop_last()) {
            lemma_expr_record(s, elements.last());
        }
    }
}

/// Whether lowering `body` from `inner` keeps what the state says of the
/// body of the function true.
pub open spec fn block_records(inner: GenModel, body: Seq<StmtModel>) -> bool {
    return_recorded(inner) ==> (lower_block(inner, body) matches Ok(done) ==> return_recorded(
        done,
    ))
}

/// The parameters of a function get their slots in its body, which then
/// ends with no return, or there are none and nothing changes.
pub proof fn lemma_bind_params_record(st: GenModel, params: Seq<Seq<char>>)
    ensures
        keeps_record(st, bind_params(st, params)),
    decreases params.len(),
{
    if params.len() > 0 {
        lemma_bind_params_record(st, params.drop_last());
    }
}

/// The text of a compiled function ends with a return and the closing
/// brace, if lowering its body keeps what is said of the body true; and
/// what was said of the body of the function around it is said again.
pub proof fn lemma_function_record(
    st: GenModel,
    name: Seq<char>,
    params: Seq<Seq<char>>,
    body: Seq<StmtModel>,
)
    requires
        forall|inner: GenModel| #[trigger] block_records(inner, body),
    ensures
        lower_function(st, name, params, body) matches Ok(done) ==> (return_recorded(st)
            ==> return_recorded(done)) && exists|value: Seq<char>|
            ends_with(done.functions, #[trigger] return_line(value) + "}\n"@),
{
    if let Ok(inner) = enter_function(st, params) {
        let entered = GenModel {
            body: Seq::empty(),
            returned: false,
            in_function: true,
            vars: Map::empty(),
            ..st
        };
        lemma_bind_params_record(entered, params);
        assert(return_recorded(inner));
        assert(block_records(inner, body));
        if let Ok(last) = lower_block(inner, body) {
            let header = crate::model::function_header(st, name, params);
            let zero = return_line("0"@);
            if last.returned {
                let value = choose|value: Seq<char>| ends_with(last.body, return_line(value));
                lemma_ends_with_more(
                    last.functions + header,
                    last.body,
                    return_line(value),
                    "}\n"@,
                );
            } else {
                lemma_ends_with_tail(last.body, zero);
                lemma_ends_with_more(last.functions + header, last.body + zero, zero, "}\n"@);
            }
        }
    }
}

/// A statement that holds no other statement keeps what the state says of
/// the body of the function true.
proof fn lemma_plain_record(st: GenModel, s: StmtModel)
    requires
        s is VarDecl || s is Assignment || s is Print || s is ExprStmt || s is ReturnStmt,
        return_recorded(st),
    ensures
        lower_stmt(st, s) matches Ok(done) ==> return_recorded(done),
{
    match s {
        StmtModel::VarDecl(name, value) => {
            match value {
                ExprModel::ArrayLiteral(elements) => {
                    lemma_elements_record(
                        crate::model::declare_array(st, name, elements.len()),
                        name,
                        elements.len(),
                        elements,
                    );
                },
                _ => {
                    lemma_expr_record(st, value);
                },
            }
        },
        StmtModel::Assignment(_, value) => {
            lemma_expr_record(st, value);
        },
        StmtModel::Print(value) => {
            lemma_expr_record(st, value);
        },
        StmtModel::ExprStmt(value) => {
            lemma_expr_record(st, value);
        },
        StmtModel::ReturnStmt(value) => {
            match value {
                Some(e) => {
                    lemma_expr_record(st, e);
                    if let Ok(v) = lower_expr(st, e) {
                        lemma_ends_with_tail(v.state.body, return_line(v.value.text));
                    }
                },
                None => {
                    lemma_ends_with_tail(st.body, return_line("0"@));
                },
            }
        },
        _ => {},
    }
}

/// A conditional keeps what the state says of the body of the function
/// true, if its blocks do.
proof fn lemma_if_record(st: GenModel, s: StmtModel)
    requires
        return_recorded(st),
        s matches StmtModel::IfStmt(_, first, second) && (forall|inner: GenModel| #[trigger]
            block_records(inner, first)) && (second matches Some(block) ==> forall|
            inner: GenModel,
        | #[trigger] block_records(inner, block)),
    ensures
        lower_stmt(st, s) matches Ok(done) ==> return_recorded(done),
{
    if let StmtModel::IfStmt(condition, first, second) = s {
        lemma_expr_record(st, condition);
        if let Ok(c) = lower_expr(st, condition) {
            let opened = crate::model::if_open(c, second is Some);
            assert(return_recorded(opened));
            assert(block_records(opened, first));
            if let Ok(s1) = lower_block(opened, first) {
                if let Some(block) = second {
                    let middle = crate::model::if_else(c.state.next_label, s1);
                    assert(return_recorded(middle));
                    assert(block_records(middle, block));
                }
            }
        }
    }
}

/// A loop keeps what the state says of the body of the function true, if
/// its body does.
proof fn lemma_while_record(st: GenModel, s: StmtModel)
    requires
        return_recorded(st),
        s matches StmtModel::WhileStmt(_, body) && forall|inner: GenModel| #[trigger]
            block_records(inner, body),
    ensures
        lower_stmt(st, s) matches Ok(done) ==> return_recorded(done),
{
    if let StmtModel::WhileStmt(condition, body) = s {
        let opened = crate::model::while_open(st);
        assert(return_recorded(opened));
        lemma_expr_record(opened, condition);
        if let Ok(c) = lower_expr(opened, condition) {
            let tested = crate::model::while_test(st.next_label, c);
            assert(return_recorded(tested));
            assert(block_records(tested, body));
        }
    }
}

/// Lowering a statement keeps what the state says of the body of the
/// function true.
pub proof fn lemma_stmt_record(st: GenModel, s: StmtModel)
    requires
        return_recorded(st),
    ensures
        lower_stmt(st, s) matches Ok(done) ==> return_recorded(done),
    decreases s, 0nat,
{
    match s {
        StmtModel::BlockStmt(stmts) => {
            lemma_block_record(st, stmts);
        },
        StmtModel::IfStmt(_, first, second) => {
            assert forall|inner: GenModel| #[trigger] block_records(inner, first) by {
                if return_recorded(inner) {
                    lemma_block_record(inner, first);
                }
            }
            if let Some(block) = second {
                assert forall|inner: GenModel| #[trigger] block_records(inner, block) by {
                    if return_recorded(inner) {
                        lemma_block_record(inner, block);
                    }
                }
            }
            lemma_if_record(st, s);
        },
        StmtModel::WhileStmt(_, body) => {
            assert forall|inner: GenModel| #[trigger] block_records(inner, body) by {
                if return_recorded(inner) {
                    lemma_block_record(inner, body);
                }
            }
            lemma_while_record(st, s);
        },
        StmtModel::FuncDecl(name, params, body) => {
            assert forall|inner: GenModel| #[trigger] block_records(inner, body) by {
                if return_recorded(inner) {
                    lemma_block_record(inner, body);
                }
            }
            lemma_function_record(st, name, params, body);
        },
        StmtModel::ClassDecl(name, fields, methods) => {
            let opened = GenModel { current_class: Some(name), ..st.register(name, fields) };
            lemma_methods_record(opened, name, methods);
        },
        _ => {
            lemma_plain_record(st, s);
        },
    }
}

/// Lowering a block keeps what the state says of the body of the function
/// true.
pub proof fn lemma_block_record(st: GenModel, stmts: Seq<StmtModel>)
    requires
        return_recorded(st),
    ensures
        lower_block(st, stmts) matches Ok(done) ==> return_recorded(done),
    decreases stmts, 0nat,
{
    if stmts.len() > 0 {
        lemma_block_record(st, stmts.drop_last());
        if let Ok(s) = lower_block(st, stmts.drop_last()) {
            lemma_stmt_record(s, stmts.last());
        }
    }
}

/// Compiling the methods of a class keeps what the state says of the body
/// of the function true.
pub proof fn lemma_methods_record(st: GenModel, class: Seq<char>, methods: Seq<StmtModel>)
    requires
        return_recorded(st),
    ensures
        lower_methods(st, class, methods) matches Ok(done) ==> return_recorded(done),
    decreases methods, 0nat,
{
    if methods.len() > 0 {
        lemma_methods_record(st, class, methods.drop_last());
        if let Ok(s) = lower_methods(st, class, methods.drop_last()) {
            match methods.last() {
                StmtModel::FuncDecl(name, params, body) => {
                    assert forall|inner: GenModel| #[trigger] block_records(inner, body) by {
                        if return_recorded(inner) {
                            lemma_block_record(inner, body);
                        }
                    }
                    lemma_function_record(
                        s,
                        crate::ir::method_name(class, name),
                        crate::model::method_params(params),
                        body,
                    );
                },
                _ => {},
            }
        }
    }
}

/// Every compiled function ends with a return: whatever its body is, the
/// text that it adds to the functions of the module ends with a return
/// instruction and the closing brace. A body whose last instruction is no
/// return gets a return of zero.
pub proof fn every_function_ends_with_a_return(
    st: GenModel,
    name: Seq<char>,
    params: Seq<Seq<char>>,
    body: Seq<StmtModel>,
)
    ensures
        lower_stmt(st, StmtModel::FuncDecl(name, params, body)) == lower_function(
            st,
            name,
            params,
            body,
        ),
        lower_function(st, name, params, body) matches Ok(done) ==> exists|value: Seq<char>|
            ends_with(done.functions, #[trigger] return_line(value) + "}\n"@),
{
    assert forall|inner: GenModel| #[trigger] block_records(inner, body) by {
        if return_recorded(inner) {
            lemma_block_record(inner, body);
        }
    }
    lemma_function_record(st, name, params, body);
}

/// The receiver of every method points to an instance of the method's
/// class: while the methods of a class are compiled, the current class stays
/// that class, whatever their bodies declare.
pub proof fn methods_keep_their_class(st: GenModel, class: Seq<char>, methods: Seq<StmtModel>)
    ensures
        lower_methods(st, class, methods) matches Ok(done) ==> done.current_class
            == st.current_class,
        crate::model::param_type(Some(class), crate::model::receiver()) == TypeModel::Instance(
            class,
        ),
{
    lemma_methods_frame(st, class, methods);
}

} // verus!
