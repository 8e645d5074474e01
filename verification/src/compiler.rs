//! The code generator: its state and the operations that lowering is built
//! from.

use crate::assemble::{module, module_text};
use crate::ast::{stmt_models, Stmt, StmtModel};
use crate::counter::Counter;
use crate::env::{fields_of, pool_id, ClassRegistry, StringPool, SymbolTable};
use crate::ir::{label_name, pool_name, pool_name_text, return_line_text};
use crate::error::CompileError;
use crate::model::{
    emit_return, leave_function, lower_block, lower_program, register_classes, Failed,
    GenModel,
};
use crate::stmt::{lemma_block_fail, lemma_block_step};
use crate::text::{position, texts};
use crate::types::ValueType;
use vstd::prelude::*;

verus! {

/// What a function that is being compiled keeps of its caller: the symbol
/// table, the output target, and the body with what is known of its end.
pub struct Saved {
    pub vars: SymbolTable,
    pub in_function: bool,
    pub body: String,
    pub returned: bool,
}

/// The code generator. It walks the syntax tree once and emits the text of
/// the module as it goes; it owns the symbol table, the class registry, the
/// pool of string literals and the counters that name temporaries and branch
/// targets.
pub struct Compiler {
    output: String,
    main_body: String,
    current_output: String,
    reg_counter: Counter,
    label_counter: Counter,
    string_literals: StringPool,
    var_types: SymbolTable,
    is_in_function: bool,
    returned: bool,
    classes: ClassRegistry,
    current_class: Option<String>,
}

impl View for Compiler {
    type V = GenModel;

    closed spec fn view(&self) -> GenModel {
        GenModel {
            functions: self.output@,
            main_body: self.main_body@,
            body: self.current_output@,
            in_function: self.is_in_function,
            returned: self.returned,
            next_reg: self.reg_counter@,
            next_label: self.label_counter@,
            pool: self.string_literals@,
            vars: self.var_types@,
            classes: self.classes@,
            current_class: match self.current_class {
                Some(c) => Some(c@),
                None => None,
            },
        }
    }
}

impl Compiler {
    /// A generator at the start of a compilation: nothing emitted, nothing
    /// bound, temporaries numbered from one and branch targets from zero.
    pub fn new() -> (c: Compiler)
        ensures
            c@ == GenModel::fresh(),
    {
        let mut reg_counter = Counter::zero();
        reg_counter.increment();
        Compiler {
            output: String::new(),
            main_body: String::new(),
            current_output: String::new(),
            reg_counter,
            label_counter: Counter::zero(),
            string_literals: StringPool::new(),
            var_types: SymbolTable::new(),
            is_in_function: false,
            returned: false,
            classes: ClassRegistry::new(),
            current_class: None,
        }
    }

    /// Allocates the next temporary and returns its name.
    pub(crate) fn get_reg(&mut self) -> (r: String)
        ensures
            r@ == old(self)@.reg(0),
            final(self)@ == old(self)@.take_reg(),
    {
        let mut r = String::from_str("%tmp");
        self.reg_counter.push_to(&mut r);
        self.reg_counter.increment();
        r
    }

    /// Allocates the next branch target and returns its name.
    pub(crate) fn get_label(&mut self) -> (r: String)
        ensures
            r@ == label_name(old(self)@.next_label),
            final(self)@ == old(self)@.take_label(),
    {
        let mut r = String::from_str("L");
        self.label_counter.push_to(&mut r);
        self.label_counter.increment();
        r
    }

    /// Looks `content` up in the pool of string literals, adds it if it is
    /// new, and returns the name of its constant.
    pub(crate) fn add_string(&mut self, content: &str) -> (r: String)
        ensures
            r@ == pool_name(pool_id(old(self)@.pool, content@)),
            final(self)@ == old(self)@.intern(content@),
    {
        let id = self.string_literals.intern(content);
        pool_name_text(id)
    }

    /// Appends `text`, which is no return, to the instructions of the
    /// current function, or to those outside any function.
    pub(crate) fn emit(&mut self, text: &str)
        ensures
            final(self)@ == old(self)@.emit(text@),
    {
        if self.is_in_function {
            self.current_output.append(text);
            self.returned = false;
        } else {
            self.main_body.append(text);
        }
    }

    /// The type that `name` is bound to in the current symbol table.
    pub(crate) fn var_type(&self, name: &str) -> (r: Option<ValueType>)
        ensures
            match r {
                Some(ty) => self@.vars.contains_key(name@) && self@.vars[name@] == ty@,
                None => !self@.vars.contains_key(name@),
            },
    {
        self.var_types.get(name)
    }

    /// Binds `name` to `ty` in the current symbol table.
    pub(crate) fn bind(&mut self, name: &str, ty: ValueType)
        ensures
            final(self)@ == old(self)@.bind(name@, ty@),
    {
        self.var_types.insert(name.to_owned(), ty);
    }

    /// The number of fields of the class `name`, if it is registered.
    pub(crate) fn field_count(&self, name: &str) -> (r: Option<usize>)
        ensures
            match r {
                Some(n) => fields_of(self@.classes, name@) is Some && fields_of(
                    self@.classes,
                    name@,
                )->Some_0.len() == n,
                None => fields_of(self@.classes, name@) is None,
            },
    {
        match self.classes.find(name) {
            Some(i) => Some(self.classes.get(i).fields.len()),
            None => None,
        }
    }

    /// The index of `field` in the class `name`: nothing if the class is not
    /// registered, else the index, or nothing if the class has no such field.
    pub(crate) fn field_index(&self, name: &str, field: &str) -> (r: Option<Option<usize>>)
        ensures
            match r {
                Some(found) => fields_of(self@.classes, name@) is Some && match found {
                    Some(i) => position(fields_of(self@.classes, name@)->Some_0, field@) == Some(
                        i as int,
                    ),
                    None => position(fields_of(self@.classes, name@)->Some_0, field@) is None,
                },
                None => fields_of(self@.classes, name@) is None,
            },
    {
        match self.classes.find(name) {
            Some(i) => Some(crate::text::find_text(&self.classes.get(i).fields, field)),
            None => None,
        }
    }

    /// Emits a return of `value`.
    pub(crate) fn emit_return(&mut self, value: &str)
        ensures
            final(self)@ == emit_return(old(self)@, value@),
    {
        let line = return_line_text(value);
        if self.is_in_function {
            self.current_output.append(line.as_str());
            self.returned = true;
        } else {
            self.main_body.append(line.as_str());
        }
    }

    /// The class whose methods are being compiled.
    pub(crate) fn current_class_name(&self) -> (r: Option<String>)
        ensures
            match r {
                Some(c) => self@.current_class == Some(c@),
                None => self@.current_class is None,
            },
    {
        match &self.current_class {
            Some(c) => Some(c.clone()),
            None => None,
        }
    }

    /// Sets the class whose methods are being compiled.
    pub(crate) fn set_current_class(&mut self, class: Option<String>)
        ensures
            final(self)@ == (GenModel {
                current_class: match class {
                    Some(c) => Some(c@),
                    None => None,
                },
                ..old(self)@
            }),
    {
        self.current_class = class;
    }

    /// Registers a class, unless it is registered already.
    pub(crate) fn register_class(&mut self, name: &str, fields: &Vec<String>)
        ensures
            final(self)@ == old(self)@.register(name@, texts(fields@)),
    {
        self.classes.register(name, fields);
    }

    /// Enters a function: the body starts empty and the symbol table too.
    /// What the caller had of these, and its output target, is returned.
    pub(crate) fn enter(&mut self) -> (saved: Saved)
        ensures
            final(self)@ == (GenModel {
                body: Seq::empty(),
                returned: false,
                in_function: true,
                vars: Map::empty(),
                ..old(self)@
            }),
            saved.vars@ == old(self)@.vars,
            saved.in_function == old(self)@.in_function,
            saved.body@ == old(self)@.body,
            saved.returned == old(self)@.returned,
    {
        let mut vars = SymbolTable::new();
        core::mem::swap(&mut self.var_types, &mut vars);
        let mut body = String::new();
        core::mem::swap(&mut self.current_output, &mut body);
        let saved = Saved {
            vars,
            in_function: self.is_in_function,
            body,
            returned: self.returned,
        };
        self.returned = false;
        self.is_in_function = true;
        saved
    }

    /// Leaves the function that was entered last: its text, under the header
    /// `header`, goes to the functions of the module; `saved` is what `enter`
    /// returned for it.
    pub(crate) fn leave(&mut self, saved: Saved, header: &str)
        ensures
            final(self)@ == leave_function(
                GenModel {
                    vars: saved.vars@,
                    in_function: saved.in_function,
                    body: saved.body@,
                    returned: saved.returned,
                    ..old(self)@
                },
                old(self)@,
                header@,
            ),
    {
        if !self.returned {
            let line = return_line_text("0");
            self.current_output.append(line.as_str());
        }
        self.output.append(header);
        self.output.append(self.current_output.as_str());
        self.output.append("}\n");
        self.is_in_function = saved.in_function;
        self.var_types = saved.vars;
        self.current_output = saved.body;
        self.returned = saved.returned;
    }

    /// Empties the texts of the functions and of the top-level statements.
    pub(crate) fn reset_output(&mut self)
        ensures
            final(self)@ == (GenModel {
                functions: Seq::empty(),
                main_body: Seq::empty(),
                ..old(self)@
            }),
    {
        self.output = String::new();
        self.main_body = String::new();
    }

    /// Registers the classes that the program declares at its top level.
    fn register_top_level(&mut self, stmts: &[Stmt])
        ensures
            final(self)@ == register_classes(old(self)@, stmt_models(stmts@)),
    {
        let ghost start = self@;
        let ghost views = stmt_models(stmts@);
        let mut i: usize = 0;
        assert(views.take(0) =~= Seq::<StmtModel>::empty());
        while i < stmts.len()
            invariant
                i <= stmts.len(),
                views == stmt_models(stmts@),
                self@ == register_classes(start, views.take(i as int)),
            decreases stmts.len() - i,
        {
            proof {
                assert(views.take(i + 1).drop_last() =~= views.take(i as int));
                assert(views.take(i + 1).last() == stmts@[i as int]@);
            }
            match &stmts[i] {
                Stmt::ClassDecl(name, fields, _) => {
                    self.register_class(name.as_str(), fields);
                },
                _ => {},
            }
            i += 1;
        }
        assert(views.take(i as int) =~= views);
    }

    /// Lowers the statements of a program in order.
    fn compile_program(&mut self, stmts: &[Stmt]) -> (r: Result<(), CompileError>)
        ensures
            match lower_block(old(self)@, stmt_models(stmts@)) {
                Ok(s) => r is Ok && final(self)@ == s,
                Err(f) => r is Err && r->Err_0@ == f.failure && final(self)@ == f.state,
            },
    {
        let ghost start = self@;
        let ghost views = stmt_models(stmts@);
        let mut i: usize = 0;
        assert(views.take(0) =~= Seq::<StmtModel>::empty());
        while i < stmts.len()
            invariant
                i <= stmts.len(),
                start == old(self)@,
                views == stmt_models(stmts@),
                lower_block(start, views.take(i as int)) == Ok::<GenModel, Failed>(self@),
            decreases stmts.len() - i,
        {
            proof {
                lemma_block_step(start, views, i as int);
            }
            match self.compile_stmt(&stmts[i]) {
                Ok(()) => {},
                Err(e) => {
                    proof {
                        lemma_block_fail(start, views, i + 1);
                    }
                    return Err(e);
                },
            }
            i += 1;
        }
        assert(views.take(i as int) =~= views);
        Ok(())
    }

    /// Compiles a program to the text of one module.
    ///
    /// The classes declared at the top level are registered first, so that a
    /// class may be used before its declaration; then every statement is
    /// lowered in order, and the module is assembled. The counters, the pool,
    /// the symbol table and the registered classes are kept from one call to
    /// the next. On a failure nothing is produced, and the generator is as
    /// new.
    pub fn compile(&mut self, stmts: &[Stmt]) -> (r: Result<String, CompileError>)
        ensures
            match lower_program(old(self)@, stmt_models(stmts@)) {
                Ok(done) => r is Ok && r->Ok_0@ == module_text(done) && final(self)@ == done,
                Err(f) => r is Err && r->Err_0@ == f.failure && final(self)@ == GenModel::fresh(),
            },
    {
        self.reset_output();
        self.register_top_level(stmts);
        match self.compile_program(stmts) {
            Ok(()) => Ok(
                module(
                    &self.classes,
                    &self.string_literals,
                    self.output.as_str(),
                    self.main_body.as_str(),
                ),
            ),
            Err(e) => {
                *self = Compiler::new();
                Err(e)
            },
        }
    }
}

} // verus!
