//! `Value` represents libSQL values and types.
//! Each database row consists of one or more cell values.
use vstd::prelude::*;

verus! {

/// A single database cell, or a positional parameter of a statement.
#[derive(Debug, PartialEq)]
pub enum Value {
    Null,
    Integer { value: i64 },
    /// A 64-bit floating-point number, carried as its IEEE 754 bit pattern.
    Float { bits: u64 },
    Text { value: String },
    Blob { value: Vec<u8> },
}

/// The mathematical content of a [`Value`].
pub enum ValueView {
    Null,
    Integer(i64),
    Float(u64),
    Text(Seq<char>),
    Blob(Seq<u8>),
}

impl View for Value {
    type V = ValueView;

    open spec fn view(&self) -> ValueView {
        match self {
            Value::Null => ValueView::Null,
            Value::Integer { value } => ValueView::Integer(*value),
            Value::Float { bits } => ValueView::Float(*bits),
            Value::Text { value } => ValueView::Text(value@),
            Value::Blob { value } => ValueView::Blob(value@),
        }
    }
}

impl Clone for Value {
    fn clone(&self) -> (r: Value)
        ensures
            r@ == self@,
    {
        match self {
            Value::Null => Value::Null,
            Value::Integer { value } => Value::Integer { value: *value },
            Value::Float { bits } => Value::Float { bits: *bits },
            Value::Text { value } => Value::Text { value: value.clone() },
            Value::Blob { value } => {
                let b = value.clone();
                assert(b@ =~= value@);
                Value::Blob { value: b }
            },
        }
    }
}

/// The boolean that a cell stands for: only the integers 0 and 1 are booleans.
pub open spec fn bool_of(v: ValueView) -> Option<bool> {
    match v {
        ValueView::Integer(0) => Some(false),
        ValueView::Integer(1) => Some(true),
        _ => None,
    }
}

impl Value {
    /// Reads the cell as a boolean: `Integer(0)` is false, `Integer(1)` is
    /// true, and any other cell is not a boolean.
    pub fn as_bool(&self) -> (r: Option<bool>)
        ensures
            r == bool_of(self@),
    {
        match self {
            Value::Integer { value } => {
                if *value == 0 {
                    Some(false)
                } else if *value == 1 {
                    Some(true)
                } else {
                    None
                }
            },
            _ => None,
        }
    }

    /// Whether the cell is SQL `NULL`; an optional field is absent exactly then.
    pub fn is_null(&self) -> (r: bool)
        ensures
            r == (self@ is Null),
    {
        match self {
            Value::Null => true,
            _ => false,
        }
    }
}

} // verus!
