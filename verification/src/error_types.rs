//! The error types: a parse fault that aborts one construct, and the
//! runtime faults that stop a program run.

use vstd::prelude::*;

use crate::token::Token;
use crate::token::TokenType;

verus! {

/// A parse fault: an expected token was missing or a construct was
/// malformed. Parsing recovers per statement, so one fault drops one
/// statement.
#[derive(Debug, PartialEq, Eq, Clone, Copy, Structural)]
pub struct DodoParseError;

impl DodoParseError {
    /// The user-facing text of a parse fault.
    pub fn message(&self) -> (r: String)
        ensures
            r@ == "An Error Occurred, Please Try Again!"@,
    {
        String::from_str("An Error Occurred, Please Try Again!")
    }
}

/// A runtime fault: evaluation stops at the first of these.
#[derive(Debug, PartialEq, Eq, Clone, Copy, Structural)]
pub enum DodoRuntimeError {
    /// An integer division whose divisor is zero.
    DivisionByZero,
    /// A variable read before any declaration introduced it.
    UnknownVariable,
    /// An arithmetic result that does not fit the integer type.
    Overflow,
    /// A vector operation whose left operand is longer than its right.
    ShapeMismatch,
    /// A variable whose stored value holds no elements.
    EmptyValue,
    /// A declaration size that is not a representable length.
    InvalidSize,
}

impl DodoRuntimeError {
    /// A short user-facing text for the fault.
    pub fn message(&self) -> (r: String)
        ensures
            r@ == match *self {
                DodoRuntimeError::DivisionByZero => "division by zero"@,
                DodoRuntimeError::UnknownVariable => "unknown variable"@,
                DodoRuntimeError::Overflow => "arithmetic overflow"@,
                DodoRuntimeError::ShapeMismatch => "vector lengths do not match"@,
                DodoRuntimeError::EmptyValue => "value holds no elements"@,
                DodoRuntimeError::InvalidSize => "declaration size is not representable"@,
            },
    {
        match *self {
            DodoRuntimeError::DivisionByZero => String::from_str("division by zero"),
            DodoRuntimeError::UnknownVariable => String::from_str("unknown variable"),
            DodoRuntimeError::Overflow => String::from_str("arithmetic overflow"),
            DodoRuntimeError::ShapeMismatch => String::from_str("vector lengths do not match"),
            DodoRuntimeError::EmptyValue => String::from_str("value holds no elements"),
            DodoRuntimeError::InvalidSize => String::from_str(
                "declaration size is not representable",
            ),
        }
    }
}

/// The text the driver shows for a parse fault at `token`: a special note
/// at the end of the input, the generic message otherwise.
pub fn error_message(token: &Token) -> (r: String)
    ensures
        r@ == if token@.token_type == TokenType::EOF {
            "At end"@
        } else {
            "An Error Occurred, Please Try Again!"@
        },
{
    match token.token_type {
        TokenType::EOF => String::from_str("At end"),
        _ => String::from_str("An Error Occurred, Please Try Again!"),
    }
}

} // verus!
