//! The tree in which a host hands over written curves.
use crate::ieee::Scalar;
use vstd::prelude::*;

verus! {

/// The sort of a node of the tree.
#[derive(Clone, Copy, PartialEq, Eq, Structural, Debug)]
pub enum JsonValueType {
    Number,
    Null,
    String,
    Array,
}

/// A node of the tree: nothing, a number, a text, or a list of nodes.
#[derive(Debug)]
pub enum JsonValue {
    Null,
    Number(Scalar),
    String(String),
    Array(Vec<JsonValue>),
}

impl JsonValue {
    /// The sort of the node.
    pub fn value_type(&self) -> (r: JsonValueType)
        ensures
            r == (match *self {
                JsonValue::Null => JsonValueType::Null,
                JsonValue::Number(_) => JsonValueType::Number,
                JsonValue::String(_) => JsonValueType::String,
                JsonValue::Array(_) => JsonValueType::Array,
            }),
    {
        match self {
            JsonValue::Null => JsonValueType::Null,
            JsonValue::Number(_) => JsonValueType::Number,
            JsonValue::String(_) => JsonValueType::String,
            JsonValue::Array(_) => JsonValueType::Array,
        }
    }
}

} // verus!
