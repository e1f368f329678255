//! The generic structured value tree that a catalogue document is parsed
//! into before it is decoded, together with small view helpers shared by the
//! rest of the crate.

use vstd::prelude::*;

verus! {

/// One node of a generic structured document (the shape a JSON parser
/// produces): a scalar, a list, or an object of key/value bindings.
///
/// An object keeps its bindings in document order; a key lookup takes the
/// first binding with that key.
#[derive(Debug, PartialEq, Eq)]
pub enum Value {
    Null,
    Bool(bool),
    Int(i64),
    Str(String),
    List(Vec<Value>),
    Object(Vec<(String, Value)>),
}

/// The structural shape of a [`Value`], used to report what a field held
/// when it did not hold what the schema expects.
#[derive(Debug, Clone, Copy, PartialEq, Eq, Structural)]
pub enum Shape {
    Null,
    Bool,
    Int,
    Str,
    List,
    Object,
}

/// The shape of a value.
pub open spec fn shape_of(v: Value) -> Shape {
    match v {
        Value::Null => Shape::Null,
        Value::Bool(_) => Shape::Bool,
        Value::Int(_) => Shape::Int,
        Value::Str(_) => Shape::Str,
        Value::List(_) => Shape::List,
        Value::Object(_) => Shape::Object,
    }
}

impl Value {
    /// The structural shape of this value.
    pub fn shape(&self) -> (s: Shape)
        ensures
            s == shape_of(*self),
    {
        match self {
            Value::Null => Shape::Null,
            Value::Bool(_) => Shape::Bool,
            Value::Int(_) => Shape::Int,
            Value::Str(_) => Shape::Str,
            Value::List(_) => Shape::List,
            Value::Object(_) => Shape::Object,
        }
    }
}

/// The deep view of a `Result`, taken side by side.
pub open spec fn res_view<A: DeepView, B: DeepView>(r: Result<A, B>) -> Result<A::V, B::V> {
    match r {
        Ok(a) => Ok(a.deep_view()),
        Err(e) => Err(e.deep_view()),
    }
}

/// String equality on the underlying character sequences.
pub fn str_eq(a: &str, b: &str) -> (r: bool)
    ensures
        r == (a@ == b@),
{
    let sa: String = a.to_owned();
    let sb: String = b.to_owned();
    sa == sb
}

} // verus!
