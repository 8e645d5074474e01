//! The mathematical model of the code generator: the state of a compilation
//! and what lowering an expression or a statement does to it.

use crate::ast::{ExprModel, StmtModel};
use crate::env::{fields_of, pool_id, pool_with, with_class, ClassModel};
use crate::error::Failure;
use crate::ir::{
    alloca_slot, arg_name, binary_line, bitcast_line, branch, branch_if, call_line, define_line,
    element_address, field_address, int_to_pointer, label_line, label_name, literal_address,
    load_slot, load_word, malloc_line, method_name, param_text, pointer_to_int, pool_name,
    print_literal, print_number, print_pointer, receiver_arg, reg_name, return_line, store_slot,
    store_word, word_arg,
};
use crate::text::{decimal, joined, position, signed_decimal};
use crate::token::TokenKind;
use crate::types::{TypeModel, ValueModel};
use vstd::prelude::*;
use vstd::utf8::encode_utf8;

verus! {

/// The state of a compilation.
pub struct GenModel {
    /// The text of the functions compiled so far.
    pub functions: Seq<char>,
    /// The instructions of the statements outside any function.
    pub main_body: Seq<char>,
    /// The instructions of the function that was entered last.
    pub body: Seq<char>,
    /// Whether instructions go to `body` rather than to `main_body`.
    pub in_function: bool,
    /// Whether the last instruction of `body` is a return.
    pub returned: bool,
    /// The number of the next temporary.
    pub next_reg: nat,
    /// The number of the next branch target.
    pub next_label: nat,
    /// The contents of the pooled string literals, by id.
    pub pool: Seq<Seq<char>>,
    /// The types of the variables of the current function body.
    pub vars: Map<Seq<char>, TypeModel>,
    /// The registered classes, in the order of registration.
    pub classes: Seq<ClassModel>,
    /// The class whose methods are being compiled.
    pub current_class: Option<Seq<char>>,
}

impl GenModel {
    /// The state in which a generator starts.
    pub open spec fn fresh() -> GenModel {
        GenModel {
            functions: Seq::empty(),
            main_body: Seq::empty(),
            body: Seq::empty(),
            in_function: false,
            returned: false,
            next_reg: 1,
            next_label: 0,
            pool: Seq::empty(),
            vars: Map::empty(),
            classes: Seq::empty(),
            current_class: None,
        }
    }

    /// Appends `text`, which is no return, to the instructions of the
    /// current function, or to those outside any function. The body of the
    /// function then ends with no return.
    pub open spec fn emit(self, text: Seq<char>) -> GenModel {
        if self.in_function {
            GenModel { body: self.body + text, returned: false, ..self }
        } else {
            GenModel { main_body: self.main_body + text, ..self }
        }
    }

    /// The name of the temporary that comes `ahead` allocations from now.
    pub open spec fn reg(self, ahead: nat) -> Seq<char> {
        reg_name(self.next_reg + ahead)
    }

    /// The state after one temporary was allocated.
    pub open spec fn take_reg(self) -> GenModel {
        GenModel { next_reg: self.next_reg + 1, ..self }
    }

    /// The state after one branch target was allocated.
    pub open spec fn take_label(self) -> GenModel {
        GenModel { next_label: self.next_label + 1, ..self }
    }

    /// The state after `content` was looked up in the pool.
    pub open spec fn intern(self, content: Seq<char>) -> GenModel {
        GenModel { pool: pool_with(self.pool, content), ..self }
    }

    /// The state after `name` was bound to `ty`.
    pub open spec fn bind(self, name: Seq<char>, ty: TypeModel) -> GenModel {
        GenModel { vars: self.vars.insert(name, ty), ..self }
    }

    /// The state after a class was registered.
    pub open spec fn register(self, name: Seq<char>, fields: Seq<Seq<char>>) -> GenModel {
        GenModel { classes: with_class(self.classes, name, fields), ..self }
    }
}

/// The result of lowering an expression: the state afterwards and the
/// value that the expression has.
pub struct Lowered {
    pub state: GenModel,
    pub value: ValueModel,
}

/// A lowering that failed: why, and the state that was reached.
pub struct Failed {
    pub failure: Failure,
    pub state: GenModel,
}

/// The failure `failure` in the state `state`.
pub open spec fn failed<T>(state: GenModel, failure: Failure) -> Result<T, Failed> {
    Err(Failed { failure, state })
}

/// A value written as an immediate number.
pub open spec fn immediate(n: int) -> ValueModel {
    ValueModel { text: signed_decimal(n), ty: TypeModel::Int, literal: None }
}

/// A value held in a temporary.
pub open spec fn temporary(name: Seq<char>, ty: TypeModel) -> ValueModel {
    ValueModel { text: name, ty, literal: None }
}

/// A string literal: its content is pooled, and its value is the pool
/// constant.
pub open spec fn lower_literal(st: GenModel, content: Seq<char>) -> Lowered {
    Lowered {
        state: st.intern(content),
        value: ValueModel {
            text: pool_name(pool_id(st.pool, content)),
            ty: TypeModel::Str,
            literal: Some(encode_utf8(content).len()),
        },
    }
}

/// A variable reference: a load from the variable's slot in the form of its
/// recorded type.
pub open spec fn lower_variable(st: GenModel, name: Seq<char>) -> Result<Lowered, Failed> {
    if !st.vars.contains_key(name) {
        failed(st, Failure::UndefinedVariable(name))
    } else if st.vars[name] is Array {
        failed(st, Failure::ArrayWithoutIndex(name))
    } else {
        Ok(
            Lowered {
                state: st.take_reg().emit(load_slot(st.reg(0), st.vars[name], name)),
                value: temporary(st.reg(0), st.vars[name]),
            },
        )
    }
}

/// An object construction: a heap allocation of four bytes for each field,
/// cast to the class's aggregate type.
pub open spec fn lower_new(st: GenModel, class: Seq<char>) -> Result<Lowered, Failed> {
    match fields_of(st.classes, class) {
        None => failed(st, Failure::UnknownClass(class)),
        Some(fields) => Ok(
            Lowered {
                state: st.take_reg().emit(malloc_line(st.reg(0), fields.len() * 4)).take_reg().emit(
                    bitcast_line(st.reg(1), st.reg(0), class),
                ),
                value: temporary(st.reg(1), TypeModel::Instance(class)),
            },
        ),
    }
}

/// A field of an object: the object's class and the field's index in it.
pub struct FieldSlot {
    pub class: Seq<char>,
    pub index: nat,
}

/// Resolves `field` on a value; `otherwise` is the failure for a value that
/// is no class instance.
pub open spec fn resolve_field(
    st: GenModel,
    object: ValueModel,
    field: Seq<char>,
    otherwise: Failure,
) -> Result<FieldSlot, Failure> {
    match object.ty {
        TypeModel::Instance(class) => match fields_of(st.classes, class) {
            None => Err(Failure::UnknownClass(class)),
            Some(fields) => match position(fields, field) {
                None => Err(Failure::UnknownField(field)),
                Some(i) => Ok(FieldSlot { class, index: i as nat }),
            },
        },
        _ => Err(otherwise),
    }
}

/// A field read: the address of the slot, then a load. Every field is an
/// integer.
pub open spec fn load_field(object: Lowered, slot: FieldSlot) -> Lowered {
    let st = object.state;
    Lowered {
        state: st.take_reg().emit(
            field_address(st.reg(0), slot.class, object.value.text, slot.index),
        ).take_reg().emit(load_word(st.reg(1), st.reg(0))),
        value: temporary(st.reg(1), TypeModel::Int),
    }
}

/// A field write: the address of the slot, then a store of the value.
pub open spec fn store_field(object: ValueModel, slot: FieldSlot, value: Lowered) -> Lowered {
    let st = value.state;
    Lowered {
        state: st.take_reg().emit(
            field_address(st.reg(0), slot.class, object.text, slot.index),
        ).emit(store_word(value.value.text, st.reg(0))),
        value: ValueModel {
            text: value.value.text,
            ty: TypeModel::Int,
            literal: value.value.literal,
        },
    }
}

/// The length of the array that `name` is bound to.
pub open spec fn array_len(st: GenModel, name: Seq<char>) -> Result<nat, Failure> {
    if !st.vars.contains_key(name) {
        Err(Failure::UndefinedVariable(name))
    } else {
        match st.vars[name] {
            TypeModel::Array(len) => Ok(len),
            _ => Err(Failure::NotAnArray(name)),
        }
    }
}

/// An indexed access: the address of the element, then a load.
pub open spec fn load_element(index: Lowered, name: Seq<char>, len: nat) -> Lowered {
    let st = index.state;
    Lowered {
        state: st.take_reg().emit(
            element_address(st.reg(0), len, name, index.value.text),
        ).take_reg().emit(load_word(st.reg(1), st.reg(0))),
        value: temporary(st.reg(1), TypeModel::Int),
    }
}

/// The arguments of a call that were lowered so far.
pub struct Args {
    pub state: GenModel,
    pub items: Seq<Seq<char>>,
}

/// One more argument: every argument is passed at integer width, and a
/// string is turned into its address first.
pub open spec fn pass_arg(before: Seq<Seq<char>>, arg: Lowered) -> Args {
    let st = arg.state;
    if arg.value.ty is Str {
        match arg.value.literal {
            Some(len) => Args {
                state: st.take_reg().emit(
                    literal_address(st.reg(0), len + 1, arg.value.text),
                ).take_reg().emit(pointer_to_int(st.reg(1), st.reg(0))),
                items: before.push(word_arg(st.reg(1))),
            },
            None => Args {
                state: st.take_reg().emit(pointer_to_int(st.reg(0), arg.value.text)),
                items: before.push(word_arg(st.reg(0))),
            },
        }
    } else {
        Args { state: st, items: before.push(word_arg(arg.value.text)) }
    }
}

/// The call itself, once its arguments are lowered.
pub open spec fn finish_call(st: GenModel, function: Seq<char>, args: Seq<Seq<char>>) -> Lowered {
    Lowered {
        state: st.take_reg().emit(call_line(st.reg(0), function, joined(args))),
        value: temporary(st.reg(0), TypeModel::Int),
    }
}

/// The name of the built-in that prints a byte sequence.
pub open spec fn print_builtin() -> Seq<char> {
    "print_str"@
}

/// The built-in print of a byte sequence: a pooled constant is printed from
/// its address, any other value is taken as an address.
pub open spec fn print_bytes(arg: Lowered) -> Lowered {
    let st = arg.state;
    Lowered {
        state: match arg.value.literal {
            Some(len) => st.take_reg().emit(literal_address(st.reg(0), len + 1, arg.value.text)).emit(
                print_pointer(st.reg(0)),
            ),
            None => st.take_reg().emit(int_to_pointer(st.reg(0), arg.value.text)).emit(
                print_pointer(st.reg(0)),
            ),
        },
        value: immediate(0),
    }
}

/// A binary operator: whether it is arithmetic, and the instruction that
/// computes it.
pub struct Operation {
    pub arithmetic: bool,
    pub text: Seq<char>,
}

/// The operation of a token, if the token is a binary operator.
pub open spec fn operation(op: TokenKind) -> Option<Operation> {
    match op {
        TokenKind::Plus => Some(Operation { arithmetic: true, text: "add"@ }),
        TokenKind::Minus => Some(Operation { arithmetic: true, text: "sub"@ }),
        TokenKind::Mul => Some(Operation { arithmetic: true, text: "mul"@ }),
        TokenKind::Div => Some(Operation { arithmetic: true, text: "sdiv"@ }),
        TokenKind::Eq => Some(Operation { arithmetic: false, text: "icmp eq"@ }),
        TokenKind::Neq => Some(Operation { arithmetic: false, text: "icmp ne"@ }),
        TokenKind::Lt => Some(Operation { arithmetic: false, text: "icmp slt"@ }),
        TokenKind::Gt => Some(Operation { arithmetic: false, text: "icmp sgt"@ }),
        TokenKind::Lte => Some(Operation { arithmetic: false, text: "icmp sle"@ }),
        TokenKind::Gte => Some(Operation { arithmetic: false, text: "icmp sge"@ }),
        _ => None,
    }
}

/// A binary operation on two lowered operands. Arithmetic needs integers;
/// the result of a comparison is used as an integer too.
pub open spec fn lower_binary(
    st: GenModel,
    left: ValueModel,
    op: TokenKind,
    right: ValueModel,
) -> Result<Lowered, Failed> {
    match operation(op) {
        None => failed(st, Failure::UnsupportedOperator),
        Some(o) => if o.arithmetic && !(left.ty is Int && right.ty is Int) {
            failed(st, Failure::UnsupportedOperandType)
        } else {
            Ok(
                Lowered {
                    state: st.take_reg().emit(
                        binary_line(st.reg(0), o.text, left.text, right.text),
                    ),
                    value: temporary(st.reg(0), TypeModel::Int),
                },
            )
        },
    }
}

/// What lowering an expression does: the instructions it appends, the
/// temporaries and pool entries it allocates, and the value it yields; or the
/// failure that ends the compilation.
pub open spec fn lower_expr(st: GenModel, e: ExprModel) -> Result<Lowered, Failed>
    decreases e,
{
    match e {
        ExprModel::Number(n) => Ok(Lowered { state: st, value: immediate(n as int) }),
        ExprModel::String(s) => Ok(lower_literal(st, s)),
        ExprModel::Variable(name) => lower_variable(st, name),
        ExprModel::ArrayLiteral(_) => failed(st, Failure::InvalidArrayLiteralContext),
        ExprModel::New(class) => lower_new(st, class),
        ExprModel::IndexAccess(name, index) => match array_len(st, name) {
            Err(f) => failed(st, f),
            Ok(len) => match lower_expr(st, *index) {
                Err(f) => Err(f),
                Ok(i) => Ok(load_element(i, name, len)),
            },
        },
        ExprModel::Get(object, field) => match lower_expr(st, *object) {
            Err(f) => Err(f),
            Ok(o) => match resolve_field(o.state, o.value, field, Failure::NotAnInstance) {
                Err(f) => failed(o.state, f),
                Ok(slot) => Ok(load_field(o, slot)),
            },
        },
        ExprModel::Assign(object, field, value) => match lower_expr(st, *object) {
            Err(f) => Err(f),
            Ok(o) => match resolve_field(
                o.state,
                o.value,
                field,
                Failure::InvalidAssignmentTarget,
            ) {
                Err(f) => failed(o.state, f),
                Ok(slot) => match lower_expr(o.state, *value) {
                    Err(f) => Err(f),
                    Ok(v) => Ok(store_field(o.value, slot, v)),
                },
            },
        },
        ExprModel::MethodCall(object, method, args) => match lower_expr(st, *object) {
            Err(f) => Err(f),
            Ok(o) => match o.value.ty {
                TypeModel::Instance(class) => if fields_of(o.state.classes, class) is None {
                    failed(o.state, Failure::UnknownClass(class))
                } else {
                    match lower_args(o.state, args) {
                        Err(f) => Err(f),
                        Ok(a) => Ok(
                            finish_call(
                                a.state,
                                method_name(class, method),
                                seq![receiver_arg(class, o.value.text)] + a.items,
                            ),
                        ),
                    }
                },
                _ => failed(o.state, Failure::InvalidCallTarget),
            },
        },
        ExprModel::Call(name, args) => if name == print_builtin() {
            if args.len() == 0 {
                failed(st, Failure::MissingArgument)
            } else {
                match lower_expr(st, args[0]) {
                    Err(f) => Err(f),
                    Ok(v) => Ok(print_bytes(v)),
                }
            }
        } else {
            match lower_args(st, args) {
                Err(f) => Err(f),
                Ok(a) => Ok(finish_call(a.state, name, a.items)),
            }
        },
        ExprModel::Binary(left, op, right) => match lower_expr(st, *left) {
            Err(f) => Err(f),
            Ok(l) => match lower_expr(l.state, *right) {
                Err(f) => Err(f),
                Ok(r) => lower_binary(r.state, l.value, op, r.value),
            },
        },
    }
}

/// What lowering the arguments of a call does, from the first to the last.
pub open spec fn lower_args(st: GenModel, args: Seq<ExprModel>) -> Result<Args, Failed>
    decreases args,
{
    if args.len() == 0 {
        Ok(Args { state: st, items: Seq::empty() })
    } else {
        match lower_args(st, args.drop_last()) {
            Err(f) => Err(f),
            Ok(a) => match lower_expr(a.state, args.last()) {
                Err(f) => Err(f),
                Ok(v) => Ok(pass_arg(a.items, v)),
            },
        }
    }
}

/// A declaration with a lowered initial value: the slot is reserved and
/// the value stored, and the variable gets the value's type. A pooled string
/// is turned into its address before it is stored.
pub open spec fn declare(value: Lowered, name: Seq<char>) -> GenModel {
    let st = value.state;
    let v = value.value;
    if v.ty is Str && v.literal is Some {
        st.emit(alloca_slot(name, v.ty)).take_reg().emit(
            literal_address(st.reg(0), v.literal->Some_0 + 1, v.text),
        ).emit(store_slot(v.ty, st.reg(0), name)).bind(name, v.ty)
    } else {
        st.emit(alloca_slot(name, v.ty)).emit(store_slot(v.ty, v.text, name)).bind(name, v.ty)
    }
}

/// An assignment: the value is stored into the variable's slot in the form
/// of the value's own type. The recorded type of the variable stays.
pub open spec fn assign(value: Lowered, name: Seq<char>) -> GenModel {
    value.state.emit(store_slot(value.value.ty, value.value.text, name))
}

/// A print of a lowered value: an integer, a pooled string or a pointer to
/// bytes. No other type can be printed.
pub open spec fn print(value: Lowered) -> Result<GenModel, Failed> {
    let v = value.value;
    match v.ty {
        TypeModel::Int => Ok(value.state.emit(print_number(v.text))),
        TypeModel::Str => match v.literal {
            Some(len) => Ok(value.state.emit(print_literal(len + 1, v.text))),
            None => Ok(value.state.emit(print_pointer(v.text))),
        },
        _ => failed(value.state, Failure::UnprintableType),
    }
}

/// A return instruction. Inside a function the body then ends with a
/// return; outside any function the instruction goes to the entry point.
pub open spec fn emit_return(st: GenModel, value: Seq<char>) -> GenModel {
    if st.in_function {
        GenModel { body: st.body + return_line(value), returned: true, ..st }
    } else {
        GenModel { main_body: st.main_body + return_line(value), ..st }
    }
}

/// The declaration of an array variable, before its elements are stored.
pub open spec fn declare_array(st: GenModel, name: Seq<char>, len: nat) -> GenModel {
    st.emit(alloca_slot(name, TypeModel::Array(len))).bind(name, TypeModel::Array(len))
}

/// The store of one lowered element of an array literal.
pub open spec fn store_element(value: Lowered, name: Seq<char>, len: nat, index: nat) -> GenModel {
    let st = value.state;
    st.take_reg().emit(element_address(st.reg(0), len, name, decimal(index))).emit(
        store_word(value.value.text, st.reg(0)),
    )
}

/// What lowering the elements of an array literal does, from the first to
/// the last; `len` is the length of the whole literal.
pub open spec fn lower_elements(
    st: GenModel,
    name: Seq<char>,
    len: nat,
    elements: Seq<ExprModel>,
) -> Result<GenModel, Failed>
    decreases elements.len(),
{
    if elements.len() == 0 {
        Ok(st)
    } else {
        match lower_elements(st, name, len, elements.drop_last()) {
            Err(f) => Err(f),
            Ok(s) => match lower_expr(s, elements.last()) {
                Err(f) => Err(f),
                Ok(v) => Ok(store_element(v, name, len, (elements.len() - 1) as nat)),
            },
        }
    }
}

/// The start of a conditional, once its condition is lowered: three branch
/// targets are allocated, for the first block, the second block and the
/// point where both join; the branch on the condition goes to the first, and
/// else to the second if there is one, else to the join.
pub open spec fn if_open(condition: Lowered, has_else: bool) -> GenModel {
    let st = condition.state;
    let base = st.next_label;
    st.take_label().take_label().take_label().emit(
        branch_if(
            condition.value.text,
            label_name(base),
            if has_else {
                label_name(base + 1)
            } else {
                label_name(base + 2)
            },
        ),
    ).emit(label_line(label_name(base)))
}

/// Between the two blocks of a conditional: the first block joins, and the
/// second begins.
pub open spec fn if_else(base: nat, st: GenModel) -> GenModel {
    st.emit(branch(label_name(base + 2))).emit(label_line(label_name(base + 1)))
}

/// The end of a conditional: the last block joins.
pub open spec fn if_close(base: nat, st: GenModel) -> GenModel {
    st.emit(branch(label_name(base + 2))).emit(label_line(label_name(base + 2)))
}

/// The start of a loop: three branch targets are allocated, for the check
/// of the condition, the body and the end, and control goes to the check.
pub open spec fn while_open(st: GenModel) -> GenModel {
    let base = st.next_label;
    st.take_label().take_label().take_label().emit(branch(label_name(base))).emit(
        label_line(label_name(base)),
    )
}

/// The test of a loop, once its condition is lowered: into the body, or to
/// the end.
pub open spec fn while_test(base: nat, condition: Lowered) -> GenModel {
    condition.state.emit(
        branch_if(condition.value.text, label_name(base + 1), label_name(base + 2)),
    ).emit(label_line(label_name(base + 1)))
}

/// The end of a loop: back to the check, and the end target.
pub open spec fn while_close(base: nat, st: GenModel) -> GenModel {
    st.emit(branch(label_name(base))).emit(label_line(label_name(base + 2)))
}

/// The name of the receiver parameter.
pub open spec fn receiver() -> Seq<char> {
    "this"@
}

/// The type of a parameter: the receiver points to an instance of the
/// current class, every other parameter is an integer.
pub open spec fn param_type(class: Option<Seq<char>>, param: Seq<char>) -> TypeModel {
    if param == receiver() && class is Some {
        TypeModel::Instance(class->Some_0)
    } else {
        TypeModel::Int
    }
}

/// The parameters as the function's header lists them.
pub open spec fn param_list(class: Option<Seq<char>>, params: Seq<Seq<char>>) -> Seq<Seq<char>> {
    Seq::new(params.len(), |i: int| param_text(param_type(class, params[i]), i as nat))
}

/// The slots of the parameters: each parameter gets a slot that holds the
/// incoming argument, and is bound to its type.
pub open spec fn bind_params(st: GenModel, params: Seq<Seq<char>>) -> GenModel
    decreases params.len(),
{
    if params.len() == 0 {
        st
    } else {
        let s = bind_params(st, params.drop_last());
        let ty = param_type(st.current_class, params.last());
        s.emit(alloca_slot(params.last(), ty)).emit(
            store_slot(ty, arg_name((params.len() - 1) as nat), params.last()),
        ).bind(params.last(), ty)
    }
}

/// Whether a receiver is among the parameters.
pub open spec fn has_receiver(params: Seq<Seq<char>>) -> bool {
    exists|i: int| 0 <= i < params.len() && params[i] == receiver()
}

/// The header of a function that is declared in the state `st`.
pub open spec fn function_header(st: GenModel, name: Seq<char>, params: Seq<Seq<char>>) -> Seq<
    char,
> {
    define_line(name, joined(param_list(st.current_class, params)))
}

/// The entry into a function: its body starts empty, with a symbol table of
/// its own that holds only the parameters. A receiver needs a current class.
pub open spec fn enter_function(st: GenModel, params: Seq<Seq<char>>) -> Result<GenModel, Failed> {
    if has_receiver(params) && st.current_class is None {
        failed(st, Failure::ReceiverOutsideClass)
    } else {
        Ok(
            bind_params(
                GenModel {
                    body: Seq::empty(),
                    returned: false,
                    in_function: true,
                    vars: Map::empty(),
                    ..st
                },
                params,
            ),
        )
    }
}

/// The exit from a function: a body that does not end with a return gets a
/// return of zero; the header, the body and the closing brace go to the
/// functions' text as one block; and the body, the symbol table and the
/// output target are again those of `outer`, the state at the entry.
pub open spec fn leave_function(outer: GenModel, inner: GenModel, header: Seq<char>) -> GenModel {
    let body = if inner.returned {
        inner.body
    } else {
        inner.body + return_line("0"@)
    };
    GenModel {
        functions: inner.functions + header + body + "}\n"@,
        body: outer.body,
        returned: outer.returned,
        in_function: outer.in_function,
        vars: outer.vars,
        ..inner
    }
}

/// The parameters of a method: the receiver, then the declared ones.
pub open spec fn method_params(params: Seq<Seq<char>>) -> Seq<Seq<char>> {
    seq![receiver()] + params
}

/// What lowering a statement does: the instructions it appends, what it
/// allocates, binds and registers; or the failure that ends the compilation.
pub open spec fn lower_stmt(st: GenModel, s: StmtModel) -> Result<GenModel, Failed>
    decreases s,
{
    match s {
        StmtModel::VarDecl(name, value) => match value {
            ExprModel::ArrayLiteral(elements) => lower_elements(
                declare_array(st, name, elements.len()),
                name,
                elements.len(),
                elements,
            ),
            _ => match lower_expr(st, value) {
                Err(f) => Err(f),
                Ok(v) => Ok(declare(v, name)),
            },
        },
        StmtModel::Assignment(name, value) => match lower_expr(st, value) {
            Err(f) => Err(f),
            Ok(v) => Ok(assign(v, name)),
        },
        StmtModel::Print(value) => match lower_expr(st, value) {
            Err(f) => Err(f),
            Ok(v) => print(v),
        },
        StmtModel::ExprStmt(value) => match lower_expr(st, value) {
            Err(f) => Err(f),
            Ok(v) => Ok(v.state),
        },
        StmtModel::ReturnStmt(value) => match value {
            None => Ok(emit_return(st, "0"@)),
            Some(e) => match lower_expr(st, e) {
                Err(f) => Err(f),
                Ok(v) => Ok(emit_return(v.state, v.value.text)),
            },
        },
        StmtModel::BlockStmt(stmts) => lower_block(st, stmts),
        StmtModel::IfStmt(condition, first, second) => match lower_expr(st, condition) {
            Err(f) => Err(f),
            Ok(c) => match lower_block(if_open(c, second is Some), first) {
                Err(f) => Err(f),
                Ok(s1) => match second {
                    None => Ok(if_close(c.state.next_label, s1)),
                    Some(block) => match lower_block(if_else(c.state.next_label, s1), block) {
                        Err(f) => Err(f),
                        Ok(s2) => Ok(if_close(c.state.next_label, s2)),
                    },
                },
            },
        },
        StmtModel::WhileStmt(condition, body) => match lower_expr(while_open(st), condition) {
            Err(f) => Err(f),
            Ok(c) => match lower_block(while_test(st.next_label, c), body) {
                Err(f) => Err(f),
                Ok(s1) => Ok(while_close(st.next_label, s1)),
            },
        },
        StmtModel::FuncDecl(name, params, body) => match enter_function(st, params) {
            Err(f) => Err(f),
            Ok(inner) => match lower_block(inner, body) {
                Err(f) => Err(f),
                Ok(done) => Ok(leave_function(st, done, function_header(st, name, params))),
            },
        },
        StmtModel::ClassDecl(name, fields, methods) => match lower_methods(
            GenModel { current_class: Some(name), ..st.register(name, fields) },
            name,
            methods,
        ) {
            Err(f) => Err(f),
            Ok(done) => Ok(GenModel { current_class: st.current_class, ..done }),
        },
    }
}

/// What lowering a list of statements does, from the first to the last.
pub open spec fn lower_block(st: GenModel, stmts: Seq<StmtModel>) -> Result<GenModel, Failed>
    decreases stmts,
{
    if stmts.len() == 0 {
        Ok(st)
    } else {
        match lower_block(st, stmts.drop_last()) {
            Err(f) => Err(f),
            Ok(s) => lower_stmt(s, stmts.last()),
        }
    }
}

/// What lowering the methods of a class does: each function among them is
/// compiled under the class's name joined to its own, with the receiver as
/// its first parameter. What is no function is passed over.
pub open spec fn lower_methods(
    st: GenModel,
    class: Seq<char>,
    methods: Seq<StmtModel>,
) -> Result<GenModel, Failed>
    decreases methods,
{
    if methods.len() == 0 {
        Ok(st)
    } else {
        match lower_methods(st, class, methods.drop_last()) {
            Err(f) => Err(f),
            Ok(s) => match methods.last() {
                StmtModel::FuncDecl(name, params, body) => match enter_function(
                    s,
                    method_params(params),
                ) {
                    Err(f) => Err(f),
                    Ok(inner) => match lower_block(inner, body) {
                        Err(f) => Err(f),
                        Ok(done) => Ok(
                            leave_function(
                                s,
                                done,
                                function_header(
                                    s,
                                    method_name(class, name),
                                    method_params(params),
                                ),
                            ),
                        ),
                    },
                },
                _ => Ok(s),
            },
        }
    }
}

/// What compiling one function does: the entry, the body, the exit. The
/// text of the function is one block, also where the function is declared
/// inside the body of another.
pub open spec fn lower_function(
    st: GenModel,
    name: Seq<char>,
    params: Seq<Seq<char>>,
    body: Seq<StmtModel>,
) -> Result<GenModel, Failed> {
    match enter_function(st, params) {
        Err(f) => Err(f),
        Ok(inner) => match lower_block(inner, body) {
            Err(f) => Err(f),
            Ok(done) => Ok(leave_function(st, done, function_header(st, name, params))),
        },
    }
}

/// The classes that a pass over the top-level statements registers, so that
/// a class may be used before its declaration.
pub open spec fn register_classes(st: GenModel, stmts: Seq<StmtModel>) -> GenModel
    decreases stmts.len(),
{
    if stmts.len() == 0 {
        st
    } else {
        let s = register_classes(st, stmts.drop_last());
        match stmts.last() {
            StmtModel::ClassDecl(name, fields, _) => s.register(name, fields),
            _ => s,
        }
    }
}

/// The state in which the lowering of a program starts: the texts of the
/// functions and of the top-level statements are empty, and the classes that
/// the program declares at its top level are registered. Counters, pool,
/// symbol table and classes are kept from `st`.
pub open spec fn begin_program(st: GenModel, stmts: Seq<StmtModel>) -> GenModel {
    register_classes(GenModel { functions: Seq::empty(), main_body: Seq::empty(), ..st }, stmts)
}

/// What lowering a whole program does to the state.
pub open spec fn lower_program(st: GenModel, stmts: Seq<StmtModel>) -> Result<GenModel, Failed> {
    lower_block(begin_program(st, stmts), stmts)
}

} // verus!
