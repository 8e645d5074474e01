//! Lowering of statements.

use crate::ast::{expr_models, stmt_models, Expr, ExprModel, Stmt, StmtModel};
use crate::compiler::Compiler;
use crate::error::CompileError;
use crate::expr::lemma_joined_push;
use crate::ir::{
    alloca_slot_text, arg_name_text, branch_if_text, branch_text, define_line_text,
    element_address_text, label_line_text, literal_address_text, method_name_text,
    param_text_of, print_literal_text, print_number_text, print_pointer_text, store_slot_text,
    store_word_text,
};
use crate::model::{
    assign, bind_params, declare, has_receiver, lower_block, lower_elements, lower_expr,
    lower_function, lower_methods, lower_stmt, method_params, param_list, param_type, print,
    receiver, store_element, Failed, GenModel, Lowered,
};
use crate::text::{joined, push_joined, same_text, texts};
use crate::types::{Value, ValueType};
use vstd::prelude::*;

verus! {

/// Whether the outcome of lowering a statement is the one that the model
/// gives: on success the same state, on failure the same failure and the
/// state that was reached.
pub open spec fn stmt_result(
    model: Result<GenModel, Failed>,
    r: Result<(), CompileError>,
    after: GenModel,
) -> bool {
    match model {
        Ok(s) => r is Ok && after == s,
        Err(f) => r is Err && r->Err_0@ == f.failure && after == f.state,
    }
}

/// One more statement of a block is lowered from the state that the
/// statements before it left.
pub proof fn lemma_block_step(st: GenModel, stmts: Seq<StmtModel>, i: int)
    requires
        0 <= i < stmts.len(),
    ensures
        lower_block(st, stmts.take(i + 1)) == match lower_block(st, stmts.take(i)) {
            Err(f) => Err::<GenModel, Failed>(f),
            Ok(s) => lower_stmt(s, stmts[i]),
        },
{
    assert(stmts.take(i + 1).drop_last() =~= stmts.take(i));
    assert(stmts.take(i + 1).last() == stmts[i]);
}

/// Lowering a block fails as soon as lowering a part of it from the front
/// fails, and with the same failure.
pub proof fn lemma_block_fail(st: GenModel, stmts: Seq<StmtModel>, i: int)
    requires
        0 <= i <= stmts.len(),
        lower_block(st, stmts.take(i)) is Err,
    ensures
        lower_block(st, stmts) == lower_block(st, stmts.take(i)),
    decreases stmts.len() - i,
{
    if i == stmts.len() {
        assert(stmts.take(i) =~= stmts);
    } else {
        lemma_block_step(st, stmts, i);
        lemma_block_fail(st, stmts, i + 1);
    }
}

/// One more element of an array literal is lowered from the state that the
/// elements before it left.
pub proof fn lemma_elements_step(
    st: GenModel,
    name: Seq<char>,
    len: nat,
    elements: Seq<ExprModel>,
    i: int,
)
    requires
        0 <= i < elements.len(),
    ensures
        lower_elements(st, name, len, elements.take(i + 1)) == match lower_elements(
            st,
            name,
            len,
            elements.take(i),
        ) {
            Err(f) => Err::<GenModel, Failed>(f),
            Ok(s) => match lower_expr(s, elements[i]) {
                Err(f) => Err(f),
                Ok(v) => Ok(store_element(v, name, len, i as nat)),
            },
        },
{
    assert(elements.take(i + 1).drop_last() =~= elements.take(i));
    assert(elements.take(i + 1).last() == elements[i]);
}

/// Lowering the elements of an array literal fails as soon as lowering a
/// part of them from the front fails, and with the same failure.
pub proof fn lemma_elements_fail(
    st: GenModel,
    name: Seq<char>,
    len: nat,
    elements: Seq<ExprModel>,
    i: int,
)
    requires
        0 <= i <= elements.len(),
        lower_elements(st, name, len, elements.take(i)) is Err,
    ensures
        lower_elements(st, name, len, elements) == lower_elements(
            st,
            name,
            len,
            elements.take(i),
        ),
    decreases elements.len() - i,
{
    if i == elements.len() {
        assert(elements.take(i) =~= elements);
    } else {
        lemma_elements_step(st, name, len, elements, i);
        lemma_elements_fail(st, name, len, elements, i + 1);
    }
}

/// One more method of a class is compiled from the state that the methods
/// before it left.
pub proof fn lemma_methods_step(st: GenModel, class: Seq<char>, methods: Seq<StmtModel>, i: int)
    requires
        0 <= i < methods.len(),
    ensures
        lower_methods(st, class, methods.take(i + 1)) == match lower_methods(
            st,
            class,
            methods.take(i),
        ) {
            Err(f) => Err::<GenModel, Failed>(f),
            Ok(s) => match methods[i] {
                StmtModel::FuncDecl(name, params, body) => lower_function(
                    s,
                    crate::ir::method_name(class, name),
                    method_params(params),
                    body,
                ),
                _ => Ok(s),
            },
        },
{
    assert(methods.take(i + 1).drop_last() =~= methods.take(i));
    assert(methods.take(i + 1).last() == methods[i]);
}

/// Compiling the methods of a class fails as soon as compiling a part of
/// them from the front fails, and with the same failure.
pub proof fn lemma_methods_fail(st: GenModel, class: Seq<char>, methods: Seq<StmtModel>, i: int)
    requires
        0 <= i <= methods.len(),
        lower_methods(st, class, methods.take(i)) is Err,
    ensures
        lower_methods(st, class, methods) == lower_methods(st, class, methods.take(i)),
    decreases methods.len() - i,
{
    if i == methods.len() {
        assert(methods.take(i) =~= methods);
    } else {
        lemma_methods_step(st, class, methods, i);
        lemma_methods_fail(st, class, methods, i + 1);
    }
}

/// Whether a parameter named as the receiver is among `params`.
fn any_receiver(params: &Vec<String>) -> (r: bool)
    ensures
        r == has_receiver(texts(params@)),
{
    let mut i: usize = 0;
    while i < params.len()
        invariant
            i <= params.len(),
            forall|j: int| 0 <= j < i ==> texts(params@)[j] != receiver(),
        decreases params.len() - i,
    {
        if same_text(params[i].as_str(), "this") {
            assert(texts(params@)[i as int] == receiver());
            return true;
        }
        i += 1;
    }
    false
}

/// The type of a parameter of a function compiled under `class`.
fn param_type_of(class: &Option<String>, param: &str) -> (ty: ValueType)
    ensures
        ty@ == param_type(
            match class {
                Some(c) => Some(c@),
                None => None,
            },
            param@,
        ),
{
    if same_text(param, "this") {
        match class {
            Some(c) => ValueType::Instance(c.clone()),
            None => ValueType::Int,
        }
    } else {
        ValueType::Int
    }
}

/// The view of an optional string.
pub open spec fn text_of(s: Option<String>) -> Option<Seq<char>> {
    match s {
        Some(c) => Some(c@),
        None => None,
    }
}

/// The parameters as a function's header lists them, joined.
fn param_list_text(class: &Option<String>, params: &Vec<String>) -> (r: String)
    ensures
        r@ == joined(param_list(text_of(*class), texts(params@))),
{
    let ghost list = param_list(text_of(*class), texts(params@));
    let mut text = String::new();
    let mut i: usize = 0;
    assert(text@ =~= joined(list.take(0)));
    while i < params.len()
        invariant
            i <= params.len(),
            list == param_list(text_of(*class), texts(params@)),
            text@ == joined(list.take(i as int)),
        decreases params.len() - i,
    {
        let ty = param_type_of(class, params[i].as_str());
        let item = param_text_of(&ty, i);
        push_joined(&mut text, i == 0, item.as_str());
        proof {
            lemma_joined_push(list.take(i as int), item@);
            assert(list.take(i as int).push(item@) =~= list.take(i + 1));
        }
        i += 1;
    }
    assert(list.take(i as int) =~= list);
    text
}

impl Compiler {
    /// Declares a variable with a lowered initial value.
    fn declare(&mut self, name: &String, value: Value)
        ensures
            final(self)@ == declare(Lowered { state: old(self)@, value: value@ }, name@),
    {
        let line = alloca_slot_text(name.as_str(), &value.ty);
        self.emit(line.as_str());
        let pooled = match (&value.ty, value.literal) {
            (ValueType::Str, Some(len)) => Some(len),
            _ => None,
        };
        match pooled {
            Some(len) => {
                let address = self.get_reg();
                let line = literal_address_text(
                    address.as_str(),
                    len as u128 + 1,
                    value.text.as_str(),
                );
                self.emit(line.as_str());
                let line = store_slot_text(&value.ty, address.as_str(), name.as_str());
                self.emit(line.as_str());
            },
            None => {
                let line = store_slot_text(&value.ty, value.text.as_str(), name.as_str());
                self.emit(line.as_str());
            },
        }
        self.bind(name.as_str(), value.ty);
    }

    /// Stores a lowered value into the slot of a variable.
    fn assign(&mut self, name: &String, value: Value)
        ensures
            final(self)@ == assign(Lowered { state: old(self)@, value: value@ }, name@),
    {
        let line = store_slot_text(&value.ty, value.text.as_str(), name.as_str());
        self.emit(line.as_str());
    }

    /// Prints a lowered value.
    fn print(&mut self, value: Value) -> (r: Result<(), CompileError>)
        ensures
            stmt_result(print(Lowered { state: old(self)@, value: value@ }), r, final(self)@),
    {
        let line = match value.ty {
            ValueType::Int => print_number_text(value.text.as_str()),
            ValueType::Str => match value.literal {
                Some(len) => print_literal_text(len as u128 + 1, value.text.as_str()),
                None => print_pointer_text(value.text.as_str()),
            },
            _ => {
                return Err(CompileError::UnprintableType);
            },
        };
        self.emit(line.as_str());
        Ok(())
    }

    /// Lowers the elements of an array literal and stores each at its index.
    fn compile_elements(&mut self, name: &String, elements: &Vec<Expr>) -> (r: Result<
        (),
        CompileError,
    >)
        ensures
            stmt_result(
                lower_elements(old(self)@, name@, elements@.len(), expr_models(elements@)),
                r,
                final(self)@,
            ),
    {
        let ghost start = self@;
        let ghost views = expr_models(elements@);
        let len = elements.len();
        let mut i: usize = 0;
        assert(views.take(0) =~= Seq::<ExprModel>::empty());
        while i < elements.len()
            invariant
                i <= elements.len(),
                len == elements.len(),
                start == old(self)@,
                views == expr_models(elements@),
                lower_elements(start, name@, len as nat, views.take(i as int)) == Ok::<
                    GenModel,
                    Failed,
                >(self@),
            decreases elements.len() - i,
        {
            proof {
                lemma_elements_step(start, name@, len as nat, views, i as int);
            }
            let value = match self.compile_expr(&elements[i]) {
                Ok(v) => v,
                Err(e) => {
                    proof {
                        lemma_elements_fail(start, name@, len as nat, views, i + 1);
                    }
                    return Err(e);
                },
            };
            let address = self.get_reg();
            let index = crate::ir::decimal_text(i as u128);
            let line = element_address_text(address.as_str(), len, name.as_str(), index.as_str());
            self.emit(line.as_str());
            let line = store_word_text(value.text.as_str(), address.as_str());
            self.emit(line.as_str());
            i += 1;
        }
        assert(views.take(i as int) =~= views);
        Ok(())
    }

    /// Gives each parameter its slot and binds it.
    fn bind_parameters(&mut self, class: &Option<String>, params: &Vec<String>)
        requires
            old(self)@.current_class == text_of(*class),
        ensures
            final(self)@ == bind_params(old(self)@, texts(params@)),
    {
        let ghost start = self@;
        let ghost list = texts(params@);
        let mut i: usize = 0;
        assert(list.take(0) =~= Seq::<Seq<char>>::empty());
        while i < params.len()
            invariant
                i <= params.len(),
                list == texts(params@),
                start.current_class == text_of(*class),
                self@ == bind_params(start, list.take(i as int)),
            decreases params.len() - i,
        {
            proof {
                assert(list.take(i + 1).drop_last() =~= list.take(i as int));
                assert(list.take(i + 1).last() == params@[i as int]@);
            }
            let name = params[i].as_str();
            let ty = param_type_of(class, name);
            let line = alloca_slot_text(name, &ty);
            self.emit(line.as_str());
            let line = store_slot_text(&ty, arg_name_text(i).as_str(), name);
            self.emit(line.as_str());
            self.bind(name, ty);
            i += 1;
        }
        assert(list.take(i as int) =~= list);
    }

    /// Compiles one function: its header and the slots of its parameters,
    /// its body, and a return of zero if the body has none.
    fn compile_function(&mut self, name: &str, params: &Vec<String>, body: &Vec<Stmt>) -> (r:
        Result<(), CompileError>)
        ensures
            stmt_result(
                lower_function(old(self)@, name@, texts(params@), stmt_models(body@)),
                r,
                final(self)@,
            ),
        decreases body, 1nat,
    {
        let class = self.current_class_name();
        if any_receiver(params) && class.is_none() {
            return Err(CompileError::ReceiverOutsideClass);
        }
        let list = param_list_text(&class, params);
        let header = define_line_text(name, list.as_str());
        let saved = self.enter();
        self.bind_parameters(&class, params);
        self.compile_block(body)?;
        self.leave(saved, header.as_str());
        Ok(())
    }

    /// Lowers a list of statements in order. A block opens no scope.
    pub(crate) fn compile_block(&mut self, stmts: &Vec<Stmt>) -> (r: Result<(), CompileError>)
        ensures
            stmt_result(lower_block(old(self)@, stmt_models(stmts@)), r, final(self)@),
        decreases stmts, 0nat,
    {
        let ghost start = self@;
        let ghost views = stmt_models(stmts@);
        let mut i: usize = 0;
        assert(views.take(0) =~= Seq::<StmtModel>::empty());
        while i < stmts.len()
            invariant
                i <= stmts.len(),
                start == old(self)@,
                views == stmt_models(stmts@),
                lower_block(start, views.take(i as int)) == Ok::<GenModel, Failed>(self@),
            decreases stmts.len() - i,
        {
            proof {
                lemma_block_step(start, views, i as int);
            }
            match self.compile_stmt(&stmts[i]) {
                Ok(()) => {},
                Err(e) => {
                    proof {
                        lemma_block_fail(start, views, i + 1);
                    }
                    return Err(e);
                },
            }
            i += 1;
        }
        assert(views.take(i as int) =~= views);
        Ok(())
    }

    /// Compiles the methods of the class `class`.
    fn compile_methods(&mut self, class: &String, methods: &Vec<Stmt>) -> (r: Result<
        (),
        CompileError,
    >)
        ensures
            stmt_result(lower_methods(old(self)@, class@, stmt_models(methods@)), r, final(self)@),
        decreases methods, 0nat,
    {
        let ghost start = self@;
        let ghost views = stmt_models(methods@);
        let mut i: usize = 0;
        assert(views.take(0) =~= Seq::<StmtModel>::empty());
        while i < methods.len()
            invariant
                i <= methods.len(),
                start == old(self)@,
                views == stmt_models(methods@),
                lower_methods(start, class@, views.take(i as int)) == Ok::<GenModel, Failed>(
                    self@,
                ),
            decreases methods.len() - i,
        {
            proof {
                lemma_methods_step(start, class@, views, i as int);
            }
            match &methods[i] {
                Stmt::FuncDecl(name, params, body) => {
                    let function = method_name_text(class.as_str(), name.as_str());
                    let mut all: Vec<String> = Vec::new();
                    all.push(String::from_str("this"));
                    let mut j: usize = 0;
                    while j < params.len()
                        invariant
                            j <= params.len(),
                            all@.len() == j + 1,
                            all@[0]@ == receiver(),
                            forall|k: int| 0 <= k < j ==> all@[k + 1]@ == params@[k]@,
                        decreases params.len() - j,
                    {
                        all.push(params[j].clone());
                        j += 1;
                    }
                    assert(texts(all@) =~= method_params(texts(params@)));
                    match self.compile_function(function.as_str(), &all, body) {
                        Ok(()) => {},
                        Err(e) => {
                            proof {
                                lemma_methods_fail(start, class@, views, i + 1);
                            }
                            return Err(e);
                        },
                    }
                },
                _ => {},
            }
            i += 1;
        }
        assert(views.take(i as int) =~= views);
        Ok(())
    }

    /// Lowers the declaration of a variable.
    fn compile_var_decl(&mut self, name: &String, value: &Expr) -> (r: Result<(), CompileError>)
        ensures
            stmt_result(
                lower_stmt(old(self)@, StmtModel::VarDecl(name@, value@)),
                r,
                final(self)@,
            ),
    {
        match value {
            Expr::ArrayLiteral(elements) => {
                let ty = ValueType::Array(elements.len());
                let line = alloca_slot_text(name.as_str(), &ty);
                self.emit(line.as_str());
                self.bind(name.as_str(), ty);
                self.compile_elements(name, elements)
            },
            _ => {
                let v = self.compile_expr(value)?;
                self.declare(name, v);
                Ok(())
            },
        }
    }

    /// Lowers a return.
    fn compile_return(&mut self, value: &Option<Expr>) -> (r: Result<(), CompileError>)
        ensures
            stmt_result(
                lower_stmt(
                    old(self)@,
                    StmtModel::ReturnStmt(
                        match value {
                            Some(e) => Some(e@),
                            None => None,
                        },
                    ),
                ),
                r,
                final(self)@,
            ),
    {
        match value {
            None => {
                self.emit_return("0");
            },
            Some(e) => {
                let v = self.compile_expr(e)?;
                self.emit_return(v.text.as_str());
            },
        }
        Ok(())
    }

    /// Lowers a conditional: the condition, a branch, the first block, and
    /// the second block if there is one; both blocks join behind them.
    fn compile_if(
        &mut self,
        condition: &Expr,
        first: &Vec<Stmt>,
        second: &Option<Vec<Stmt>>,
        Ghost(parent): Ghost<&Stmt>,
    ) -> (r: Result<(), CompileError>)
        requires
            decreases_to!(parent => first),
            second matches Some(block) ==> decreases_to!(parent => block),
        ensures
            stmt_result(
                lower_stmt(
                    old(self)@,
                    StmtModel::IfStmt(
                        condition@,
                        stmt_models(first@),
                        match second {
                            Some(block) => Some(stmt_models(block@)),
                            None => None,
                        },
                    ),
                ),
                r,
                final(self)@,
            ),
        decreases parent, 1nat,
    {
        let c = self.compile_expr(condition)?;
        let label_then = self.get_label();
        let label_else = self.get_label();
        let label_merge = self.get_label();
        let line = if second.is_some() {
            branch_if_text(c.text.as_str(), label_then.as_str(), label_else.as_str())
        } else {
            branch_if_text(c.text.as_str(), label_then.as_str(), label_merge.as_str())
        };
        self.emit(line.as_str());
        let line = label_line_text(label_then.as_str());
        self.emit(line.as_str());
        self.compile_block(first)?;
        let line = branch_text(label_merge.as_str());
        self.emit(line.as_str());
        match second {
            Some(block) => {
                let line = label_line_text(label_else.as_str());
                self.emit(line.as_str());
                self.compile_block(block)?;
                let line = branch_text(label_merge.as_str());
                self.emit(line.as_str());
            },
            None => {},
        }
        let line = label_line_text(label_merge.as_str());
        self.emit(line.as_str());
        Ok(())
    }

    /// Lowers a loop: the check of the condition, the body, and the jump
    /// back.
    fn compile_while(&mut self, condition: &Expr, body: &Vec<Stmt>, Ghost(parent): Ghost<&Stmt>) -> (r:
        Result<(), CompileError>)
        requires
            decreases_to!(parent => body),
        ensures
            stmt_result(
                lower_stmt(old(self)@, StmtModel::WhileStmt(condition@, stmt_models(body@))),
                r,
                final(self)@,
            ),
        decreases parent, 1nat,
    {
        let label_cond = self.get_label();
        let label_body = self.get_label();
        let label_end = self.get_label();
        let line = branch_text(label_cond.as_str());
        self.emit(line.as_str());
        let line = label_line_text(label_cond.as_str());
        self.emit(line.as_str());
        let c = self.compile_expr(condition)?;
        let line = branch_if_text(c.text.as_str(), label_body.as_str(), label_end.as_str());
        self.emit(line.as_str());
        let line = label_line_text(label_body.as_str());
        self.emit(line.as_str());
        self.compile_block(body)?;
        let line = branch_text(label_cond.as_str());
        self.emit(line.as_str());
        let line = label_line_text(label_end.as_str());
        self.emit(line.as_str());
        Ok(())
    }

    /// Lowers the declaration of a class: the class is registered, and its
    /// methods are compiled with it as the current class. Afterwards the
    /// current class is again the one of before.
    fn compile_class(
        &mut self,
        name: &String,
        fields: &Vec<String>,
        methods: &Vec<Stmt>,
        Ghost(parent): Ghost<&Stmt>,
    ) -> (r: Result<(), CompileError>)
        requires
            decreases_to!(parent => methods),
        ensures
            stmt_result(
                lower_stmt(
                    old(self)@,
                    StmtModel::ClassDecl(name@, texts(fields@), stmt_models(methods@)),
                ),
                r,
                final(self)@,
            ),
        decreases parent, 1nat,
    {
        self.register_class(name.as_str(), fields);
        let around = self.current_class_name();
        self.set_current_class(Some(name.clone()));
        self.compile_methods(name, methods)?;
        self.set_current_class(around);
        Ok(())
    }

    /// Lowers a statement: appends its instructions to the current output
    /// and records what it declares.
    pub(crate) fn compile_stmt(&mut self, stmt: &Stmt) -> (r: Result<(), CompileError>)
        ensures
            stmt_result(lower_stmt(old(self)@, stmt@), r, final(self)@),
        decreases stmt, 2nat,
    {
        match stmt {
            Stmt::VarDecl(name, value) => self.compile_var_decl(name, value),
            Stmt::Assignment(name, value) => {
                let v = self.compile_expr(value)?;
                self.assign(name, v);
                Ok(())
            },
            Stmt::Print(value) => {
                let v = self.compile_expr(value)?;
                self.print(v)
            },
            Stmt::ExprStmt(value) => {
                let _ = self.compile_expr(value)?;
                Ok(())
            },
            Stmt::ReturnStmt(value) => self.compile_return(value),
            Stmt::BlockStmt(stmts) => self.compile_block(stmts),
            Stmt::IfStmt(condition, first, second) => self.compile_if(
                condition,
                first,
                second,
                Ghost(stmt),
            ),
            Stmt::WhileStmt(condition, body) => self.compile_while(condition, body, Ghost(stmt)),
            Stmt::FuncDecl(name, params, body) => {
                self.compile_function(name.as_str(), params, body)
            },
            Stmt::ClassDecl(name, fields, methods) => self.compile_class(
                name,
                fields,
                methods,
                Ghost(stmt),
            ),
        }
    }
}

} // verus!
