//! How a child modifier combines with the value before it.
use crate::text::same;
use vstd::prelude::*;

verus! {

/// The operation that a modifier applies between the running value and
/// its own.
#[derive(Clone, Copy, PartialEq, Eq, Structural, Debug)]
pub enum Operation {
    /// Replace the running value.
    Replace,
    Add,
    Sub,
    Mul,
    Div,
}

impl Operation {
    /// The operation that the flag text `s` names; every text but the four
    /// operation names stands for `Replace`.
    pub open spec fn parse(s: Seq<char>) -> Operation {
        if s == "opAdd"@ {
            Operation::Add
        } else if s == "opSub"@ {
            Operation::Sub
        } else if s == "opMul"@ {
            Operation::Mul
        } else if s == "opDiv"@ {
            Operation::Div
        } else {
            Operation::Replace
        }
    }

    /// The operation that `s` names. Never fails.
    pub fn from_str(s: &str) -> (r: Result<Operation, ()>)
        ensures
            r == Ok::<Operation, ()>(Operation::parse(s@)),
    {
        if same(s, "opAdd") {
            Ok(Operation::Add)
        } else if same(s, "opSub") {
            Ok(Operation::Sub)
        } else if same(s, "opMul") {
            Ok(Operation::Mul)
        } else if same(s, "opDiv") {
            Ok(Operation::Div)
        } else {
            Ok(Operation::Replace)
        }
    }
}

} // verus!
