//! The inferred types of values and the values that expressions lower to.

use vstd::prelude::*;

verus! {

/// The type that the generator infers for a value. It is derived where a
/// variable is first assigned and then stays with that binding.
#[derive(Debug, PartialEq, Clone)]
pub enum ValueType {
    /// A 32-bit integer.
    Int,
    /// A pointer to a null-terminated byte sequence.
    Str,
    /// An array of integers of the given length.
    Array(usize),
    /// A pointer to an instance of the named class.
    Instance(String),
}

/// The mathematical form of a `ValueType`.
pub enum TypeModel {
    Int,
    Str,
    Array(nat),
    Instance(Seq<char>),
}

impl View for ValueType {
    type V = TypeModel;

    open spec fn view(&self) -> TypeModel {
        match self {
            ValueType::Int => TypeModel::Int,
            ValueType::Str => TypeModel::Str,
            ValueType::Array(n) => TypeModel::Array(*n as nat),
            ValueType::Instance(c) => TypeModel::Instance(c@),
        }
    }
}

impl ValueType {
    /// A copy of this type.
    pub fn duplicate(&self) -> (r: ValueType)
        ensures
            r@ == self@,
    {
        match self {
            ValueType::Int => ValueType::Int,
            ValueType::Str => ValueType::Str,
            ValueType::Array(n) => ValueType::Array(*n),
            ValueType::Instance(c) => ValueType::Instance(c.clone()),
        }
    }
}

/// What an expression lowers to: the text of the operand that holds its
/// value, the type of the value, and, where the operand names a pooled string
/// constant, the length of its content in bytes.
#[derive(Debug, PartialEq, Clone)]
pub struct Value {
    pub text: String,
    pub ty: ValueType,
    pub literal: Option<usize>,
}

/// The mathematical form of a `Value`.
pub struct ValueModel {
    pub text: Seq<char>,
    pub ty: TypeModel,
    pub literal: Option<nat>,
}

impl View for Value {
    type V = ValueModel;

    open spec fn view(&self) -> ValueModel {
        ValueModel {
            text: self.text@,
            ty: self.ty@,
            literal: match self.literal {
                Some(n) => Some(n as nat),
                None => None,
            },
        }
    }
}

} // verus!
