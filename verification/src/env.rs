//! The environment of a compilation: the symbol table, the class registry and
//! the pool of string literals.

use crate::text::{copy_texts, find_text, lemma_position, position, same_text, texts};
use crate::types::{TypeModel, ValueType};
use vstd::prelude::*;

verus! {

/// One binding of a symbol table.
pub struct Binding {
    pub name: String,
    pub ty: ValueType,
}

/// The map that a list of bindings stands for: a later binding of a name
/// replaces an earlier one.
pub open spec fn bindings_map(entries: Seq<Binding>) -> Map<Seq<char>, TypeModel>
    decreases entries.len(),
{
    if entries.len() == 0 {
        Map::empty()
    } else {
        bindings_map(entries.drop_last()).insert(entries.last().name@, entries.last().ty@)
    }
}

/// The types of the variables of one function body, by name. The table is
/// flat: a block opens no scope.
pub struct SymbolTable {
    entries: Vec<Binding>,
}

impl View for SymbolTable {
    type V = Map<Seq<char>, TypeModel>;

    closed spec fn view(&self) -> Map<Seq<char>, TypeModel> {
        bindings_map(self.entries@)
    }
}

impl SymbolTable {
    /// A table without bindings.
    pub fn new() -> (t: SymbolTable)
        ensures
            t@ == Map::<Seq<char>, TypeModel>::empty(),
    {
        SymbolTable { entries: Vec::new() }
    }

    /// The type bound to `name`, if the table binds it.
    pub fn get(&self, name: &str) -> (r: Option<ValueType>)
        ensures
            match r {
                Some(ty) => self@.contains_key(name@) && self@[name@] == ty@,
                None => !self@.contains_key(name@),
            },
    {
        let mut i: usize = self.entries.len();
        assert(self.entries@.take(i as int) =~= self.entries@);
        while i > 0
            invariant
                i <= self.entries.len(),
                bindings_map(self.entries@).contains_key(name@) == bindings_map(
                    self.entries@.take(i as int),
                ).contains_key(name@),
                bindings_map(self.entries@).contains_key(name@) ==> bindings_map(
                    self.entries@,
                )[name@] == bindings_map(self.entries@.take(i as int))[name@],
            decreases i,
        {
            let ghost prefix = self.entries@.take(i as int);
            assert(prefix.drop_last() =~= self.entries@.take(i - 1));
            assert(prefix.last() == self.entries@[i - 1]);
            if same_text(self.entries[i - 1].name.as_str(), name) {
                return Some(self.entries[i - 1].ty.duplicate());
            }
            i -= 1;
        }
        None
    }

    /// Binds `name` to `ty`, in place of what it was bound to before.
    pub fn insert(&mut self, name: String, ty: ValueType)
        ensures
            final(self)@ == old(self)@.insert(name@, ty@),
    {
        self.entries.push(Binding { name, ty });
        assert(self.entries@.drop_last() =~= old(self).entries@);
    }
}

/// A registered class: its name and the names of its fields. The position
/// of a field in the list is its storage offset.
pub struct ClassInfo {
    pub name: String,
    pub fields: Vec<String>,
}

/// The mathematical form of a `ClassInfo`.
pub struct ClassModel {
    pub name: Seq<char>,
    pub fields: Seq<Seq<char>>,
}

impl View for ClassInfo {
    type V = ClassModel;

    open spec fn view(&self) -> ClassModel {
        ClassModel { name: self.name@, fields: texts(self.fields@) }
    }
}

/// The names of a sequence of classes.
pub open spec fn class_names(classes: Seq<ClassModel>) -> Seq<Seq<char>> {
    Seq::new(classes.len(), |i: int| classes[i].name)
}

/// The field list under which `name` is registered, if it is.
pub open spec fn fields_of(classes: Seq<ClassModel>, name: Seq<char>) -> Option<Seq<Seq<char>>> {
    match position(class_names(classes), name) {
        Some(i) => Some(classes[i].fields),
        None => None,
    }
}

/// The classes after `name` is registered with `fields`: a class that is
/// registered already keeps the field list it has.
pub open spec fn with_class(
    classes: Seq<ClassModel>,
    name: Seq<char>,
    fields: Seq<Seq<char>>,
) -> Seq<ClassModel> {
    if position(class_names(classes), name) is Some {
        classes
    } else {
        classes.push(ClassModel { name, fields })
    }
}

/// The classes of a compilation, in the order in which they were registered.
pub struct ClassRegistry {
    classes: Vec<ClassInfo>,
}

/// The views of a sequence of classes.
pub open spec fn class_models(classes: Seq<ClassInfo>) -> Seq<ClassModel> {
    Seq::new(classes.len(), |i: int| classes[i]@)
}

impl View for ClassRegistry {
    type V = Seq<ClassModel>;

    closed spec fn view(&self) -> Seq<ClassModel> {
        class_models(self.classes@)
    }
}

impl ClassRegistry {
    /// A registry without classes.
    pub fn new() -> (r: ClassRegistry)
        ensures
            r@ == Seq::<ClassModel>::empty(),
    {
        let r = ClassRegistry { classes: Vec::new() };
        assert(r@ =~= Seq::<ClassModel>::empty());
        r
    }

    /// The number of registered classes.
    pub fn len(&self) -> (n: usize)
        ensures
            n == self@.len(),
    {
        self.classes.len()
    }

    /// The class at position `i`.
    pub fn get(&self, i: usize) -> (c: &ClassInfo)
        requires
            i < self@.len(),
        ensures
            c@ == self@[i as int],
    {
        &self.classes[i]
    }

    /// The position at which `name` is registered, if it is.
    pub fn find(&self, name: &str) -> (r: Option<usize>)
        ensures
            match r {
                Some(i) => position(class_names(self@), name@) == Some(i as int) && i < self@.len(),
                None => position(class_names(self@), name@) is None,
            },
    {
        let ghost names = class_names(self@);
        let mut i: usize = 0;
        while i < self.classes.len()
            invariant
                i <= self.classes.len(),
                names == class_names(self@),
                names.len() == self.classes@.len(),
                forall|j: int| 0 <= j < i ==> names[j] != name@,
            decreases self.classes.len() - i,
        {
            assert(names[i as int] == self.classes@[i as int].name@);
            if same_text(self.classes[i].name.as_str(), name) {
                proof {
                    lemma_position(names, name@);
                }
                return Some(i);
            }
            i += 1;
        }
        proof {
            lemma_position(names, name@);
        }
        None
    }

    /// Registers `name` with `fields`, unless it is registered already.
    pub fn register(&mut self, name: &str, fields: &Vec<String>)
        ensures
            final(self)@ == with_class(old(self)@, name@, texts(fields@)),
    {
        match self.find(name) {
            Some(_) => {},
            None => {
                let info = ClassInfo { name: name.to_owned(), fields: copy_texts(fields) };
                self.classes.push(info);
                assert(self@ =~= old(self)@.push(ClassModel { name: name@, fields: texts(fields@) }));
            },
        }
    }
}

/// The pool of string literals. The id of a literal is its position; equal
/// contents share one entry.
pub struct StringPool {
    entries: Vec<String>,
}

/// The id under which `content` is found in the pool, or that it gets when it
/// is added.
pub open spec fn pool_id(pool: Seq<Seq<char>>, content: Seq<char>) -> nat {
    match position(pool, content) {
        Some(i) => i as nat,
        None => pool.len(),
    }
}

/// The pool after `content` was looked up: unchanged where it holds the
/// content already, else with the content added at the end.
pub open spec fn pool_with(pool: Seq<Seq<char>>, content: Seq<char>) -> Seq<Seq<char>> {
    if position(pool, content) is Some {
        pool
    } else {
        pool.push(content)
    }
}

impl View for StringPool {
    type V = Seq<Seq<char>>;

    closed spec fn view(&self) -> Seq<Seq<char>> {
        texts(self.entries@)
    }
}

impl StringPool {
    /// An empty pool.
    pub fn new() -> (p: StringPool)
        ensures
            p@ == Seq::<Seq<char>>::empty(),
    {
        let p = StringPool { entries: Vec::new() };
        assert(p@ =~= Seq::<Seq<char>>::empty());
        p
    }

    /// The number of entries.
    pub fn len(&self) -> (n: usize)
        ensures
            n == self@.len(),
    {
        self.entries.len()
    }

    /// The content of the entry with the given id.
    pub fn get(&self, id: usize) -> (s: &String)
        requires
            id < self@.len(),
        ensures
            s@ == self@[id as int],
    {
        &self.entries[id]
    }

    /// The id of `content`, which is added to the pool if it is new.
    pub fn intern(&mut self, content: &str) -> (id: usize)
        ensures
            id == pool_id(old(self)@, content@),
            final(self)@ == pool_with(old(self)@, content@),
    {
        match find_text(&self.entries, content) {
            Some(i) => i,
            None => {
                let id = self.entries.len();
                self.entries.push(content.to_owned());
                assert(self@ =~= old(self)@.push(content@));
                id
            },
        }
    }
}

} // verus!
