//! The service handler: one call, `calculate`.

use vstd::prelude::*;
use crate::operation::Operation;

verus! {

/// A request: two operands and the wire number of the operation to apply.
///
/// The operation is kept as it arrived, since the wire does not confine it
/// to the numbers that stand for an [`Operation`].
#[derive(Debug, PartialEq)]
pub struct BinaryOperation<T> {
    pub first_operand: T,
    pub second_operand: T,
    pub operation: i32,
}

/// The answer to a request.
#[derive(Debug, PartialEq)]
pub struct CalculationResult<T> {
    pub result: T,
}

/// The gRPC status code `INVALID_ARGUMENT`, under which an
/// [`InvalidArgument`] is reported to the caller.
pub const INVALID_ARGUMENT: i32 = 3;

/// The rejection of a request whose operation number stands for no
/// [`Operation`]. It carries the number that was sent.
#[derive(Clone, Copy, Debug, PartialEq, Eq, Structural)]
pub struct InvalidArgument {
    pub operation: i32,
}

/// The handler of the calculator service.
///
/// It holds no state: an answer depends on the request and on the
/// arithmetic that the caller brings, so calls cannot disturb one another.
#[derive(Clone, Copy, Debug, Default)]
pub struct CalculatorImpl;

impl CalculatorImpl {
    /// Answers one request.
    ///
    /// The handler is generic in the operand type, and the caller brings
    /// the arithmetic of that type: `addition` and `subtraction`. The
    /// handler decides which of the two is applied, and applies it to the
    /// first and the second operand in this order. A request whose
    /// operation number is unknown is rejected, and neither function is
    /// called.
    pub fn calculate<T, A, S>(
        &self,
        request: BinaryOperation<T>,
        addition: A,
        subtraction: S,
    ) -> (response: Result<CalculationResult<T>, InvalidArgument>)
        where
            A: FnOnce(T, T) -> T,
            S: FnOnce(T, T) -> T,
        requires
            Operation::decoded(request.operation) == Some(Operation::Add) ==> addition.requires(
                (request.first_operand, request.second_operand),
            ),
            Operation::decoded(request.operation) == Some(Operation::Subtract)
                ==> subtraction.requires((request.first_operand, request.second_operand)),
        ensures
            match Operation::decoded(request.operation) {
                Some(Operation::Add) => response is Ok && addition.ensures(
                    (request.first_operand, request.second_operand),
                    response->Ok_0.result,
                ),
                Some(Operation::Subtract) => response is Ok && subtraction.ensures(
                    (request.first_operand, request.second_operand),
                    response->Ok_0.result,
                ),
                None => response == Err::<CalculationResult<T>, InvalidArgument>(
                    InvalidArgument { operation: request.operation },
                ),
            },
    {
        match Operation::from_i32(request.operation) {
            Some(Operation::Add) => Ok(
                CalculationResult { result: addition(request.first_operand, request.second_operand) },
            ),
            Some(Operation::Subtract) => Ok(
                CalculationResult {
                    result: subtraction(request.first_operand, request.second_operand),
                },
            ),
            None => Err(InvalidArgument { operation: request.operation }),
        }
    }
}

} // verus!
