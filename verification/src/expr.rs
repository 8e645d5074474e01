//! Lowering of expressions.

use crate::ast::{expr_model, expr_models, Expr, ExprModel};
use crate::compiler::Compiler;
use crate::error::CompileError;
use crate::ir::{
    binary_line_text, bitcast_line_text, call_line_text, element_address_text,
    field_address_text, int_to_pointer_text, literal_address_text, load_slot_text,
    load_word_text, malloc_line_text, method_name_text, pointer_to_int_text, print_pointer_text,
    receiver_arg_text, store_word_text, word_arg_text,
};
use crate::model::{
    array_len, load_element, load_field, lower_args, lower_binary, lower_expr, lower_new,
    lower_variable, operation, pass_arg, print_bytes, resolve_field, store_field, Args, Failed,
    FieldSlot, GenModel, Lowered, Operation,
};
use crate::text::{joined, push_joined, push_signed, same_text, signed_decimal};
use crate::token::TokenType;
use crate::types::{Value, ValueType};
use vstd::prelude::*;

verus! {

/// Whether the outcome of lowering an expression is the one that the model
/// gives: on success the same value and the same state, on failure the same
/// failure and the same state.
pub open spec fn expr_result(
    model: Result<Lowered, Failed>,
    r: Result<Value, CompileError>,
    after: GenModel,
) -> bool {
    match model {
        Ok(l) => r is Ok && r->Ok_0@ == l.value && after == l.state,
        Err(f) => r is Err && r->Err_0@ == f.failure && after == f.state,
    }
}

/// Lowering a list of arguments fails as soon as lowering a part of it from
/// the front fails, and with the same failure.
pub proof fn lemma_args_fail(st: GenModel, args: Seq<ExprModel>, i: int)
    requires
        0 <= i <= args.len(),
        lower_args(st, args.take(i)) is Err,
    ensures
        lower_args(st, args) == lower_args(st, args.take(i)),
    decreases args.len() - i,
{
    if i == args.len() {
        assert(args.take(i) =~= args);
    } else {
        assert(args.take(i + 1).drop_last() =~= args.take(i));
        lemma_args_fail(st, args, i + 1);
    }
}

/// One more argument is lowered from the state that the arguments before it
/// left.
pub proof fn lemma_args_step(st: GenModel, args: Seq<ExprModel>, i: int)
    requires
        0 <= i < args.len(),
    ensures
        lower_args(st, args.take(i + 1)) == match lower_args(st, args.take(i)) {
            Err(f) => Err::<Args, Failed>(f),
            Ok(a) => match lower_expr(a.state, args[i]) {
                Err(f) => Err(f),
                Ok(v) => Ok(pass_arg(a.items, v)),
            },
        },
{
    assert(args.take(i + 1).drop_last() =~= args.take(i));
    assert(args.take(i + 1).last() == args[i]);
}

/// Passing an argument adds one item to those before it, and what it does
/// to the state does not depend on them.
pub proof fn lemma_pass_arg(before: Seq<Seq<char>>, arg: Lowered)
    ensures
        pass_arg(before, arg).state == pass_arg(Seq::empty(), arg).state,
        pass_arg(Seq::empty(), arg).items.len() == 1,
        pass_arg(before, arg).items == before.push(pass_arg(Seq::empty(), arg).items[0]),
{
}

/// Joining one more item puts the separator before it, unless it is the
/// first.
pub proof fn lemma_joined_push(items: Seq<Seq<char>>, item: Seq<char>)
    ensures
        joined(items.push(item)) == if items.len() == 0 {
            item
        } else {
            joined(items) + ", "@ + item
        },
{
    assert(items.push(item).drop_last() =~= items);
}

/// A value held in a temporary.
fn temporary_value(text: String, ty: ValueType) -> (v: Value)
    ensures
        v@ == crate::model::temporary(text@, ty@),
{
    Value { text, ty, literal: None }
}

impl Compiler {
    /// Lowers a variable reference.
    fn load_variable(&mut self, name: &String) -> (r: Result<Value, CompileError>)
        ensures
            expr_result(lower_variable(old(self)@, name@), r, final(self)@),
    {
        match self.var_type(name.as_str()) {
            None => Err(CompileError::UndefinedVariable(name.clone())),
            Some(ty) => {
                if let ValueType::Array(_) = ty {
                    return Err(CompileError::ArrayWithoutIndex(name.clone()));
                }
                let reg = self.get_reg();
                let line = load_slot_text(reg.as_str(), &ty, name.as_str());
                self.emit(line.as_str());
                Ok(temporary_value(reg, ty))
            },
        }
    }

    /// Lowers an object construction.
    fn construct(&mut self, class: &String) -> (r: Result<Value, CompileError>)
        ensures
            expr_result(lower_new(old(self)@, class@), r, final(self)@),
    {
        match self.field_count(class.as_str()) {
            None => Err(CompileError::UnknownClass(class.clone())),
            Some(count) => {
                let size: u128 = count as u128 * 4;
                let raw = self.get_reg();
                let line = malloc_line_text(raw.as_str(), size);
                self.emit(line.as_str());
                let cast = self.get_reg();
                let line = bitcast_line_text(cast.as_str(), raw.as_str(), class.as_str());
                self.emit(line.as_str());
                Ok(temporary_value(cast, ValueType::Instance(class.clone())))
            },
        }
    }

    /// Resolves a field on a lowered object: the name of the object's class
    /// and the index of the field in it.
    fn resolve(&self, object: &Value, field: &String, otherwise: CompileError) -> (r: Result<
        (String, usize),
        CompileError,
    >)
        ensures
            match resolve_field(self@, object@, field@, otherwise@) {
                Ok(slot) => r is Ok && r->Ok_0.0@ == slot.class && r->Ok_0.1 == slot.index,
                Err(f) => r is Err && r->Err_0@ == f,
            },
    {
        match &object.ty {
            ValueType::Instance(class) => match self.field_index(class.as_str(), field.as_str()) {
                None => Err(CompileError::UnknownClass(class.clone())),
                Some(None) => Err(CompileError::UnknownField(field.clone())),
                Some(Some(i)) => Ok((class.clone(), i)),
            },
            _ => Err(otherwise),
        }
    }

    /// Emits the read of a resolved field.
    fn read_field(&mut self, object: &Value, class: &String, index: usize) -> (v: Value)
        ensures
            v@ == load_field(
                Lowered { state: old(self)@, value: object@ },
                FieldSlot { class: class@, index: index as nat },
            ).value,
            final(self)@ == load_field(
                Lowered { state: old(self)@, value: object@ },
                FieldSlot { class: class@, index: index as nat },
            ).state,
    {
        let address = self.get_reg();
        let line = field_address_text(
            address.as_str(),
            class.as_str(),
            object.text.as_str(),
            index,
        );
        self.emit(line.as_str());
        let reg = self.get_reg();
        let line = load_word_text(reg.as_str(), address.as_str());
        self.emit(line.as_str());
        temporary_value(reg, ValueType::Int)
    }

    /// Emits the write of a lowered value to a resolved field.
    fn write_field(&mut self, object: &Value, class: &String, index: usize, value: Value) -> (v:
        Value)
        ensures
            v@ == store_field(
                object@,
                FieldSlot { class: class@, index: index as nat },
                Lowered { state: old(self)@, value: value@ },
            ).value,
            final(self)@ == store_field(
                object@,
                FieldSlot { class: class@, index: index as nat },
                Lowered { state: old(self)@, value: value@ },
            ).state,
    {
        let address = self.get_reg();
        let line = field_address_text(
            address.as_str(),
            class.as_str(),
            object.text.as_str(),
            index,
        );
        self.emit(line.as_str());
        let line = store_word_text(value.text.as_str(), address.as_str());
        self.emit(line.as_str());
        Value { text: value.text, ty: ValueType::Int, literal: value.literal }
    }

    /// The length of the array that `name` is bound to.
    fn array_length(&self, name: &String) -> (r: Result<usize, CompileError>)
        ensures
            match array_len(self@, name@) {
                Ok(len) => r is Ok && r->Ok_0 == len,
                Err(f) => r is Err && r->Err_0@ == f,
            },
    {
        match self.var_type(name.as_str()) {
            None => Err(CompileError::UndefinedVariable(name.clone())),
            Some(ValueType::Array(len)) => Ok(len),
            Some(_) => Err(CompileError::NotAnArray(name.clone())),
        }
    }

    /// Emits the read of an array element at a lowered index.
    fn read_element(&mut self, index: &Value, name: &String, len: usize) -> (v: Value)
        ensures
            v@ == load_element(
                Lowered { state: old(self)@, value: index@ },
                name@,
                len as nat,
            ).value,
            final(self)@ == load_element(
                Lowered { state: old(self)@, value: index@ },
                name@,
                len as nat,
            ).state,
    {
        let address = self.get_reg();
        let line = element_address_text(
            address.as_str(),
            len,
            name.as_str(),
            index.text.as_str(),
        );
        self.emit(line.as_str());
        let reg = self.get_reg();
        let line = load_word_text(reg.as_str(), address.as_str());
        self.emit(line.as_str());
        temporary_value(reg, ValueType::Int)
    }

    /// Turns a lowered argument into the text under which it is passed.
    fn pass(&mut self, arg: &Value) -> (text: String)
        ensures
            final(self)@ == pass_arg(
                Seq::empty(),
                Lowered { state: old(self)@, value: arg@ },
            ).state,
            pass_arg(Seq::empty(), Lowered { state: old(self)@, value: arg@ }).items[0]
                == text@,
    {
        if let ValueType::Str = arg.ty {
            match arg.literal {
                Some(len) => {
                    let address = self.get_reg();
                    let line = literal_address_text(address.as_str(), len as u128 + 1, arg.text.as_str());
                    self.emit(line.as_str());
                    let reg = self.get_reg();
                    let line = pointer_to_int_text(reg.as_str(), address.as_str());
                    self.emit(line.as_str());
                    let text = word_arg_text(reg.as_str());
                    text
                },
                None => {
                    let reg = self.get_reg();
                    let line = pointer_to_int_text(reg.as_str(), arg.text.as_str());
                    self.emit(line.as_str());
                    let text = word_arg_text(reg.as_str());
                    text
                },
            }
        } else {
            let text = word_arg_text(arg.text.as_str());
            text
        }
    }

    /// Emits a call once its arguments are lowered.
    fn call(&mut self, function: &str, args: &str) -> (v: Value)
        ensures
            v@ == crate::model::temporary(old(self)@.reg(0), crate::types::TypeModel::Int),
            final(self)@ == old(self)@.take_reg().emit(
                crate::ir::call_line(old(self)@.reg(0), function@, args@),
            ),
    {
        let reg = self.get_reg();
        let line = call_line_text(reg.as_str(), function, args);
        self.emit(line.as_str());
        temporary_value(reg, ValueType::Int)
    }

    /// Emits the built-in print of a byte sequence.
    fn print_bytes(&mut self, arg: &Value) -> (v: Value)
        ensures
            v@ == print_bytes(Lowered { state: old(self)@, value: arg@ }).value,
            final(self)@ == print_bytes(Lowered { state: old(self)@, value: arg@ }).state,
    {
        let pointer = self.get_reg();
        let line = match arg.literal {
            Some(len) => literal_address_text(
                pointer.as_str(),
                len as u128 + 1,
                arg.text.as_str(),
            ),
            None => int_to_pointer_text(pointer.as_str(), arg.text.as_str()),
        };
        self.emit(line.as_str());
        let line = print_pointer_text(pointer.as_str());
        self.emit(line.as_str());
        let mut text = String::new();
        push_signed(&mut text, 0);
        assert(text@ =~= signed_decimal(0));
        Value { text, ty: ValueType::Int, literal: None }
    }

    /// Emits a binary operation on two lowered operands.
    fn binary(&mut self, left: &Value, op: &TokenType, right: &Value) -> (r: Result<
        Value,
        CompileError,
    >)
        ensures
            expr_result(lower_binary(old(self)@, left@, op@, right@), r, final(self)@),
    {
        let (arithmetic, text) = match op {
            TokenType::Plus => (true, "add"),
            TokenType::Minus => (true, "sub"),
            TokenType::Mul => (true, "mul"),
            TokenType::Div => (true, "sdiv"),
            TokenType::Eq => (false, "icmp eq"),
            TokenType::Neq => (false, "icmp ne"),
            TokenType::Lt => (false, "icmp slt"),
            TokenType::Gt => (false, "icmp sgt"),
            TokenType::Lte => (false, "icmp sle"),
            TokenType::Gte => (false, "icmp sge"),
            _ => {
                return Err(CompileError::UnsupportedOperator);
            },
        };
        assert(operation(op@) == Some(Operation { arithmetic, text: text@ }));
        if arithmetic {
            let both = match (&left.ty, &right.ty) {
                (ValueType::Int, ValueType::Int) => true,
                _ => false,
            };
            if !both {
                return Err(CompileError::UnsupportedOperandType);
            }
        }
        let reg = self.get_reg();
        let line = binary_line_text(reg.as_str(), text, left.text.as_str(), right.text.as_str());
        self.emit(line.as_str());
        Ok(temporary_value(reg, ValueType::Int))
    }

    /// Lowers the arguments of a call and returns them joined, after `first`
    /// if there is one.
    fn compile_args(&mut self, first: Option<String>, args: &Vec<Expr>) -> (r: Result<
        String,
        CompileError,
    >)
        ensures
            match lower_args(old(self)@, expr_models(args@)) {
                Ok(a) => r is Ok && final(self)@ == a.state && r->Ok_0@ == joined(
                    match first {
                        Some(f) => seq![f@] + a.items,
                        None => a.items,
                    },
                ),
                Err(f) => r is Err && r->Err_0@ == f.failure && final(self)@ == f.state,
            },
        decreases args, 2nat,
    {
        let ghost start = self@;
        let ghost views = expr_models(args@);
        let mut text = String::new();
        let mut empty = true;
        let ghost mut all: Seq<Seq<char>> = Seq::empty();
        let ghost mut items: Seq<Seq<char>> = Seq::empty();
        if let Some(f) = &first {
            text.append(f.as_str());
            empty = false;
            proof {
                all = seq![f@];
                assert(text@ =~= joined(all));
            }
        }
        proof {
            assert(all + items =~= all);
            assert(views.take(0) =~= Seq::<ExprModel>::empty());
        }
        let ghost lead = all;
        let mut i: usize = 0;
        while i < args.len()
            invariant
                i <= args.len(),
                start == old(self)@,
                views == expr_models(args@),
                lower_args(start, views.take(i as int)) == Ok::<Args, Failed>(
                    Args { state: self@, items },
                ),
                all == lead + items,
                text@ == joined(all),
                empty == (all.len() == 0),
            decreases args.len() - i,
        {
            let ghost before = self@;
            let value = match self.compile_expr(&args[i]) {
                Ok(v) => v,
                Err(e) => {
                    proof {
                        lemma_args_step(start, views, i as int);
                        lemma_args_fail(start, views, i + 1);
                    }
                    return Err(e);
                },
            };
            let item = self.pass(&value);
            push_joined(&mut text, empty, item.as_str());
            proof {
                lemma_args_step(start, views, i as int);
                lemma_pass_arg(items, Lowered { state: before, value: value@ });
                lemma_joined_push(all, item@);
                items = items.push(item@);
                assert(lead + items =~= all.push(item@));
                all = all.push(item@);
            }
            empty = false;
            i += 1;
        }
        assert(views.take(i as int) =~= views);
        Ok(text)
    }

    /// Lowers a field write: the object, then the value, then the store.
    fn compile_field_write(
        &mut self,
        object: &Expr,
        field: &String,
        value: &Expr,
        Ghost(parent): Ghost<&Expr>,
    ) -> (r: Result<Value, CompileError>)
        requires
            decreases_to!(parent => object),
            decreases_to!(parent => value),
        ensures
            expr_result(
                lower_expr(
                    old(self)@,
                    ExprModel::Assign(Box::new(object@), field@, Box::new(value@)),
                ),
                r,
                final(self)@,
            ),
        decreases parent, 1nat,
    {
        let o = self.compile_expr(object)?;
        let (class, index) = self.resolve(&o, field, CompileError::InvalidAssignmentTarget)?;
        let v = self.compile_expr(value)?;
        Ok(self.write_field(&o, &class, index, v))
    }

    /// Lowers a method call: the receiver, then the arguments, then a call
    /// of the function that the method was compiled to.
    fn compile_method_call(
        &mut self,
        object: &Expr,
        method: &String,
        args: &Vec<Expr>,
        Ghost(parent): Ghost<&Expr>,
    ) -> (r: Result<Value, CompileError>)
        requires
            decreases_to!(parent => object),
            decreases_to!(parent => args),
        ensures
            expr_result(
                lower_expr(
                    old(self)@,
                    ExprModel::MethodCall(Box::new(object@), method@, expr_models(args@)),
                ),
                r,
                final(self)@,
            ),
        decreases parent, 1nat,
    {
        let o = self.compile_expr(object)?;
        match &o.ty {
            ValueType::Instance(class) => {
                if self.field_count(class.as_str()).is_none() {
                    return Err(CompileError::UnknownClass(class.clone()));
                }
                let function = method_name_text(class.as_str(), method.as_str());
                let receiver = receiver_arg_text(class.as_str(), o.text.as_str());
                let joined_args = self.compile_args(Some(receiver), args)?;
                Ok(self.call(function.as_str(), joined_args.as_str()))
            },
            _ => Err(CompileError::InvalidCallTarget),
        }
    }

    /// Lowers a call of a function: the built-in print of a byte sequence, or
    /// an ordinary call.
    fn compile_call(&mut self, name: &String, args: &Vec<Expr>, Ghost(parent): Ghost<&Expr>) -> (r:
        Result<Value, CompileError>)
        requires
            decreases_to!(parent => args),
        ensures
            expr_result(
                lower_expr(old(self)@, ExprModel::Call(name@, expr_models(args@))),
                r,
                final(self)@,
            ),
        decreases parent, 1nat,
    {
        if same_text(name.as_str(), "print_str") {
            if args.len() == 0 {
                return Err(CompileError::MissingArgument);
            }
            let v = self.compile_expr(&args[0])?;
            Ok(self.print_bytes(&v))
        } else {
            let joined_args = self.compile_args(None, args)?;
            Ok(self.call(name.as_str(), joined_args.as_str()))
        }
    }

    /// Lowers a binary operation: the left operand, the right operand, then
    /// the operation.
    fn compile_binary(
        &mut self,
        left: &Expr,
        op: &TokenType,
        right: &Expr,
        Ghost(parent): Ghost<&Expr>,
    ) -> (r: Result<Value, CompileError>)
        requires
            decreases_to!(parent => left),
            decreases_to!(parent => right),
        ensures
            expr_result(
                lower_expr(
                    old(self)@,
                    ExprModel::Binary(Box::new(left@), op@, Box::new(right@)),
                ),
                r,
                final(self)@,
            ),
        decreases parent, 1nat,
    {
        let l = self.compile_expr(left)?;
        let r = self.compile_expr(right)?;
        self.binary(&l, op, &r)
    }

    /// Lowers an expression: appends its instructions to the current
    /// output and returns the operand that holds its value, with the value's
    /// type.
    pub(crate) fn compile_expr(&mut self, expr: &Expr) -> (r: Result<Value, CompileError>)
        ensures
            expr_result(lower_expr(old(self)@, expr_model(*expr)), r, final(self)@),
        decreases expr, 3nat,
    {
        match expr {
            Expr::Number(n) => {
                let mut text = String::new();
                push_signed(&mut text, *n);
                assert(text@ =~= signed_decimal(*n as int));
                Ok(Value { text, ty: ValueType::Int, literal: None })
            },
            Expr::String(s) => {
                let len = s.as_str().as_bytes().len();
                let text = self.add_string(s.as_str());
                Ok(Value { text, ty: ValueType::Str, literal: Some(len) })
            },
            Expr::Variable(name) => self.load_variable(name),
            Expr::ArrayLiteral(_) => Err(CompileError::InvalidArrayLiteralContext),
            Expr::New(class) => self.construct(class),
            Expr::IndexAccess(name, index) => {
                let len = self.array_length(name)?;
                let i = self.compile_expr(index)?;
                Ok(self.read_element(&i, name, len))
            },
            Expr::Get(object, field) => {
                let o = self.compile_expr(object)?;
                let (class, index) = self.resolve(&o, field, CompileError::NotAnInstance)?;
                Ok(self.read_field(&o, &class, index))
            },
            Expr::Assign(object, field, value) => self.compile_field_write(
                object,
                field,
                value,
                Ghost(expr),
            ),
            Expr::MethodCall(object, method, args) => self.compile_method_call(
                object,
                method,
                args,
                Ghost(expr),
            ),
            Expr::Call(name, args) => self.compile_call(name, args, Ghost(expr)),
            Expr::Binary(left, op, right) => self.compile_binary(left, op, right, Ghost(expr)),
        }
    }
}

} // verus!
