//! The operation selector of a request and its numbering on the wire.

use vstd::prelude::*;

verus! {

/// The arithmetic that a request asks for.
///
/// The set is closed. On the wire an operation travels as a signed 32-bit
/// number, `0` for [`Operation::Add`] and `1` for [`Operation::Subtract`];
/// any other number names no operation.
#[derive(Clone, Copy, Debug, PartialEq, Eq, Hash, Structural)]
pub enum Operation {
    Add,
    Subtract,
}

impl Operation {
    /// The number that stands for this operation on the wire.
    pub open spec fn wire_value(self) -> i32 {
        match self {
            Operation::Add => 0,
            Operation::Subtract => 1,
        }
    }

    /// The operation that `value` stands for, if it stands for one.
    pub open spec fn decoded(value: i32) -> Option<Operation> {
        if value == Operation::Add.wire_value() {
            Some(Operation::Add)
        } else if value == Operation::Subtract.wire_value() {
            Some(Operation::Subtract)
        } else {
            None
        }
    }

    /// Returns the number that stands for this operation on the wire.
    pub fn value(self) -> (value: i32)
        ensures
            value == self.wire_value(),
    {
        match self {
            Operation::Add => 0,
            Operation::Subtract => 1,
        }
    }

    /// Reads a wire number. Returns `None` for a number outside the set.
    pub fn from_i32(value: i32) -> (operation: Option<Operation>)
        ensures
            operation == Operation::decoded(value),
    {
        if value == 0 {
            Some(Operation::Add)
        } else if value == 1 {
            Some(Operation::Subtract)
        } else {
            None
        }
    }
}

/// Every operation is read back from its own wire number.
pub proof fn lemma_wire_round_trip(operation: Operation)
    ensures
        Operation::decoded(operation.wire_value()) == Some(operation),
{
}

/// A wire number is read as an operation exactly when it is that operation's
/// number: no two operations share a number, and no other number is
/// accepted.
pub proof fn lemma_decoded_exact(value: i32, operation: Operation)
    ensures
        Operation::decoded(value) == Some(operation) <==> value == operation.wire_value(),
{
}

} // verus!
