//! Runtime values.
//!
//! A value is a tagged sum.  `ReturnValue` and `Error` are internal
//! control-flow signals: they are produced and consumed inside the
//! evaluator's recursion, are never stored in an environment and never
//! reach user code as arguments.

use vstd::prelude::*;

use crate::ast::BlockStatement;
use crate::model::{block_model, BuiltinFn, ValueModel};

verus! {

/// A 64-bit signed integer value.
#[derive(Debug)]
pub struct Integer {
    pub value: i64,
}

/// A boolean value.
#[derive(Debug)]
pub struct Boolean {
    pub value: bool,
}

/// A string value: immutable UTF-8 text.
#[derive(Debug)]
pub struct StringObj {
    pub value: String,
}

/// A function value: a closure over the frame it was created in.
///
/// `env` is the index of the captured frame inside the [`crate::environment::Environment`]
/// the function was evaluated in.
#[derive(Debug)]
pub struct Function {
    pub parameters: Vec<String>,
    pub body: BlockStatement,
    pub env: usize,
}

/// The runtime value sum.
#[derive(Debug)]
pub enum Object {
    Integer(Integer),
    Boolean(Boolean),
    Str(StringObj),
    Null,
    Function(Function),
    Builtin(BuiltinFn),
    ReturnValue(Box<Object>),
    Error(String),
}

/// The names of a parameter list.
pub open spec fn strings_model(ss: Seq<String>) -> Seq<Seq<char>> {
    Seq::new(ss.len(), |i: int| ss[i]@)
}

/// The model of a runtime value.
pub open spec fn object_model(o: Object) -> ValueModel
    decreases o,
{
    match o {
        Object::Integer(i) => ValueModel::Int(i.value),
        Object::Boolean(b) => ValueModel::Bool(b.value),
        Object::Str(s) => ValueModel::Str(s.value@),
        Object::Null => ValueModel::Null,
        Object::Function(f) => ValueModel::Func {
            params: strings_model(f.parameters@),
            body: block_model(f.body),
            env: f.env as nat,
        },
        Object::Builtin(b) => ValueModel::Builtin(b),
        Object::ReturnValue(v) => ValueModel::Ret(Box::new(object_model(*v))),
        Object::Error(m) => ValueModel::Error(m@),
    }
}

/// The models of a list of values.
pub open spec fn objects_model(s: Seq<Object>) -> Seq<ValueModel> {
    Seq::new(s.len(), |i: int| object_model(s[i]))
}

impl View for Object {
    type V = ValueModel;

    open spec fn view(&self) -> ValueModel {
        object_model(*self)
    }
}

impl Clone for Object {
    /// A deep copy; it has the same model as the original.
    fn clone(&self) -> (r: Self)
        ensures
            r@ == self@,
        decreases self,
    {
        match self {
            Object::Integer(i) => Object::Integer(Integer { value: i.value }),
            Object::Boolean(b) => Object::Boolean(Boolean { value: b.value }),
            Object::Str(s) => Object::Str(StringObj { value: s.value.clone() }),
            Object::Null => Object::Null,
            Object::Function(f) => {
                let parameters = f.parameters.clone();
                proof {
                    assert(strings_model(parameters@) =~= strings_model(f.parameters@));
                }
                Object::Function(Function {
                    parameters,
                    body: f.body.clone(),
                    env: f.env,
                })
            },
            Object::Builtin(b) => Object::Builtin(*b),
            Object::ReturnValue(v) => Object::ReturnValue(Box::new((&**v).clone())),
            Object::Error(m) => Object::Error(m.clone()),
        }
    }
}

} // verus!
