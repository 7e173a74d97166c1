//! Errors raised while evaluating a program.
use vstd::prelude::*;

verus! {

/// Kinds of run-time errors
#[derive(Debug, Clone, Copy, PartialEq, Eq, Structural)]
pub enum ExecutionErrorVariant {
    DivisionByZero,
    ExpectedIdentifier,
    ExpectedSemicolon,
    FunctionDoesNotExist,
    IndexOutOfBounds,
    InvalidArgumentCount,
    InvalidType,
    MissingMainFunction,
    NonIntegerIndex,
    Overflow,
    UnsupportedBinaryOperation,
    UnsupportedListAccess,
    UnsupportedUnaryOperation,
    VariableAlreadyExists,
    VariableDoesNotExist,
}

/// A run-time error
#[derive(Debug, Clone, Copy, PartialEq, Eq, Structural)]
pub struct ExecutionError {
    pub variant: ExecutionErrorVariant,
}

impl ExecutionError {
    pub fn new(variant: ExecutionErrorVariant) -> (r: Self)
        ensures
            r.variant == variant,
    {
        Self { variant }
    }
}

} // verus!
