//! The failures that the engine raises, and the diagnostic shown for each.

use vstd::prelude::*;
use crate::highlight::{highlight, highlighted, Role};
use crate::text::{decimal, decimal_string};
use crate::val::Val;

verus! {

/// A failure raised while evaluating an expression or a statement.
///
/// Every kind carries the data that explains it: the operands that no handler
/// accepted, in evaluation order; the identifier exactly as it was looked up
/// or declared; or both the required and the received side of a mismatch.
#[derive(Debug)]
#[allow(inconsistent_fields)]
pub enum EngineError {
    InvalidAddOperation { x: Val, y: Val },
    InvalidSubOperation { x: Val, y: Val },
    InvalidMulOperation { x: Val, y: Val },
    InvalidDivOperation { x: Val, y: Val },
    InvalidNegOperation { x: Val },
    InvalidGreaterThanOperation { x: Val, y: Val },
    InvalidGreaterThanOrEqOperation { x: Val, y: Val },
    InvalidLessThanOperation { x: Val, y: Val },
    InvalidLessThanOrEqOperation { x: Val, y: Val },
    InvalidNotOperation { x: Val },
    InvalidAndOperation { x: Val, y: Val },
    InvalidOrOperation { x: Val, y: Val },
    VariableAlreadyExists { variable_name: String },
    VariableUndefined { variable_name: String },
    FunctionAlreadyExists { function_name: String },
    FunctionUndefined { function_name: String },
    MismatchedParameterCount { actual: usize, expected: usize },
    MismatchedTypes { actual: Val, expected: Val },
    NotYetImplemented,
    Unknown,
}

/// The title that opens every diagnostic, in the header colour.
pub open spec fn header_text() -> Seq<char> {
    highlighted(Role::Header, "Engine Error"@)
}

/// What separates the header from the message.
pub open spec fn separator_text() -> Seq<char> {
    ": "@
}

/// The message for a two-operand operator without a handler for its operands.
pub open spec fn missing_handler_text(handler: Seq<char>, x: Val, y: Val) -> Seq<char> {
    "Could not find "@ + handler + " handler for the provided types "@ + highlighted(
        Role::Faulty,
        x.type_text(),
    ) + " and "@ + highlighted(Role::Faulty, y.type_text())
}

/// The message for a one-operand operator without a handler for its operand.
pub open spec fn missing_handler_single_text(handler: Seq<char>, x: Val) -> Seq<char> {
    "Could not find "@ + handler + " handler for the provided type "@ + highlighted(
        Role::Faulty,
        x.type_text(),
    )
}

/// A sentence around an identifier, the identifier marked as faulty.
pub open spec fn identifier_text(lead: Seq<char>, name: Seq<char>, tail: Seq<char>) -> Seq<char> {
    lead + highlighted(Role::Faulty, name) + tail
}

/// The message for a call with the wrong number of arguments.
pub open spec fn parameter_count_text(actual: nat, expected: nat) -> Seq<char> {
    "The function expected "@ + highlighted(Role::Expected, decimal(expected))
        + " parameters, but received "@ + highlighted(Role::Faulty, decimal(actual))
}

/// The message for a value of the wrong type.
pub open spec fn type_mismatch_text(actual: Val, expected: Val) -> Seq<char> {
    "Expected type "@ + highlighted(Role::Expected, expected.type_text()) + ", but got "@
        + highlighted(Role::Faulty, actual.type_text()) + " instead"@
}

/// Builds the message for a two-operand operator that has no handler for the
/// types of `x` and `y`.
pub fn missing_handler_msg(handler: &str, x: &Val, y: &Val) -> (msg: String)
    ensures
        msg@ == missing_handler_text(handler@, *x, *y),
{
    let first = highlight(Role::Faulty, x.get_type());
    let second = highlight(Role::Faulty, y.get_type());
    let mut msg = String::from_str("Could not find ");
    msg.append(handler);
    msg.append(" handler for the provided types ");
    msg.append(first.as_str());
    msg.append(" and ");
    msg.append(second.as_str());
    msg
}

/// Builds the message for a one-operand operator that has no handler for the
/// type of `x`.
pub fn missing_handler_msg_single(handler: &str, x: &Val) -> (msg: String)
    ensures
        msg@ == missing_handler_single_text(handler@, *x),
{
    let operand = highlight(Role::Faulty, x.get_type());
    let mut msg = String::from_str("Could not find ");
    msg.append(handler);
    msg.append(" handler for the provided type ");
    msg.append(operand.as_str());
    msg
}

/// Builds a sentence around an identifier that could not be used.
fn identifier_msg(lead: &str, name: &str, tail: &str) -> (msg: String)
    ensures
        msg@ == identifier_text(lead@, name@, tail@),
{
    let marked = highlight(Role::Faulty, name);
    let mut msg = String::from_str(lead);
    msg.append(marked.as_str());
    msg.append(tail);
    msg
}

/// Builds the message for a call with `actual` arguments to a function that
/// declares `expected` parameters.
fn parameter_count_msg(actual: usize, expected: usize) -> (msg: String)
    ensures
        msg@ == parameter_count_text(actual as nat, expected as nat),
{
    let wanted = decimal_string(expected);
    let wanted = highlight(Role::Expected, wanted.as_str());
    let received = decimal_string(actual);
    let received = highlight(Role::Faulty, received.as_str());
    let mut msg = String::from_str("The function expected ");
    msg.append(wanted.as_str());
    msg.append(" parameters, but received ");
    msg.append(received.as_str());
    msg
}

/// Builds the message for a value of the type of `actual` where the type of
/// `expected` was required.
fn type_mismatch_msg(actual: &Val, expected: &Val) -> (msg: String)
    ensures
        msg@ == type_mismatch_text(*actual, *expected),
{
    let wanted = highlight(Role::Expected, expected.get_type());
    let received = highlight(Role::Faulty, actual.get_type());
    let mut msg = String::from_str("Expected type ");
    msg.append(wanted.as_str());
    msg.append(", but got ");
    msg.append(received.as_str());
    msg.append(" instead");
    msg
}

impl EngineError {
    /// This failure is a two-operand operator without a handler.
    pub open spec fn is_binary_miss(&self) -> bool {
        ||| self is InvalidAddOperation
        ||| self is InvalidSubOperation
        ||| self is InvalidMulOperation
        ||| self is InvalidDivOperation
        ||| self is InvalidGreaterThanOperation
        ||| self is InvalidGreaterThanOrEqOperation
        ||| self is InvalidLessThanOperation
        ||| self is InvalidLessThanOrEqOperation
        ||| self is InvalidAndOperation
        ||| self is InvalidOrOperation
    }

    /// This failure is a one-operand operator without a handler.
    pub open spec fn is_unary_miss(&self) -> bool {
        self is InvalidNegOperation || self is InvalidNotOperation
    }

    /// The token that names the operator of a handler miss; empty for every
    /// other failure.
    pub open spec fn opcode(&self) -> Seq<char> {
        match *self {
            EngineError::InvalidAddOperation { .. } => "ADD"@,
            EngineError::InvalidSubOperation { .. } => "SUB"@,
            EngineError::InvalidMulOperation { .. } => "MUL"@,
            EngineError::InvalidDivOperation { .. } => "DIV"@,
            EngineError::InvalidNegOperation { .. } => "NEG"@,
            EngineError::InvalidGreaterThanOperation { .. } => "GREATER_THAN"@,
            EngineError::InvalidGreaterThanOrEqOperation { .. } => "GREATER_THAN_OR_EQ"@,
            EngineError::InvalidLessThanOperation { .. } => "LESS_THAN"@,
            EngineError::InvalidLessThanOrEqOperation { .. } => "LESS_THAN_OR_EQ"@,
            EngineError::InvalidNotOperation { .. } => "NOT"@,
            EngineError::InvalidAndOperation { .. } => "AND"@,
            EngineError::InvalidOrOperation { .. } => "OR"@,
            _ => Seq::empty(),
        }
    }

    /// The operands that no handler accepted, in evaluation order; empty for
    /// a failure that is no handler miss.
    pub open spec fn operands(&self) -> Seq<Val> {
        match *self {
            EngineError::InvalidAddOperation { x, y } => seq![x, y],
            EngineError::InvalidSubOperation { x, y } => seq![x, y],
            EngineError::InvalidMulOperation { x, y } => seq![x, y],
            EngineError::InvalidDivOperation { x, y } => seq![x, y],
            EngineError::InvalidNegOperation { x } => seq![x],
            EngineError::InvalidGreaterThanOperation { x, y } => seq![x, y],
            EngineError::InvalidGreaterThanOrEqOperation { x, y } => seq![x, y],
            EngineError::InvalidLessThanOperation { x, y } => seq![x, y],
            EngineError::InvalidLessThanOrEqOperation { x, y } => seq![x, y],
            EngineError::InvalidNotOperation { x } => seq![x],
            EngineError::InvalidAndOperation { x, y } => seq![x, y],
            EngineError::InvalidOrOperation { x, y } => seq![x, y],
            _ => Seq::empty(),
        }
    }

    /// This failure is an identifier that is bound already or not at all.
    pub open spec fn is_scope_failure(&self) -> bool {
        ||| self is VariableAlreadyExists
        ||| self is VariableUndefined
        ||| self is FunctionAlreadyExists
        ||| self is FunctionUndefined
    }

    /// The identifier of a scope failure, as it was looked up or declared;
    /// empty for every other failure.
    pub open spec fn identifier(&self) -> Seq<char> {
        match *self {
            EngineError::VariableAlreadyExists { variable_name } => variable_name@,
            EngineError::VariableUndefined { variable_name } => variable_name@,
            EngineError::FunctionAlreadyExists { function_name } => function_name@,
            EngineError::FunctionUndefined { function_name } => function_name@,
            _ => Seq::empty(),
        }
    }

    /// The explanation of this failure: the part of the diagnostic after the
    /// header.
    pub open spec fn message_text(&self) -> Seq<char> {
        match *self {
            EngineError::InvalidAddOperation { x, y } => missing_handler_text("ADD"@, x, y),
            EngineError::InvalidSubOperation { x, y } => missing_handler_text("SUB"@, x, y),
            EngineError::InvalidMulOperation { x, y } => missing_handler_text("MUL"@, x, y),
            EngineError::InvalidDivOperation { x, y } => missing_handler_text("DIV"@, x, y),
            EngineError::InvalidNegOperation { x } => missing_handler_single_text("NEG"@, x),
            EngineError::InvalidGreaterThanOperation { x, y } => missing_handler_text(
                "GREATER_THAN"@,
                x,
                y,
            ),
            EngineError::InvalidGreaterThanOrEqOperation { x, y } => missing_handler_text(
                "GREATER_THAN_OR_EQ"@,
                x,
                y,
            ),
            EngineError::InvalidLessThanOperation { x, y } => missing_handler_text(
                "LESS_THAN"@,
                x,
                y,
            ),
            EngineError::InvalidLessThanOrEqOperation { x, y } => missing_handler_text(
                "LESS_THAN_OR_EQ"@,
                x,
                y,
            ),
            EngineError::InvalidNotOperation { x } => missing_handler_single_text("NOT"@, x),
            EngineError::InvalidAndOperation { x, y } => missing_handler_text("AND"@, x, y),
            EngineError::InvalidOrOperation { x, y } => missing_handler_text("OR"@, x, y),
            EngineError::VariableAlreadyExists { variable_name } => identifier_text(
                "The variable "@,
                variable_name@,
                " already exists in the scope"@,
            ),
            EngineError::VariableUndefined { variable_name } => identifier_text(
                "The variable "@,
                variable_name@,
                " is undefined in the scope"@,
            ),
            EngineError::FunctionAlreadyExists { function_name } => identifier_text(
                "The function "@,
                function_name@,
                " already exists in the scope"@,
            ),
            EngineError::FunctionUndefined { function_name } => identifier_text(
                "The function "@,
                function_name@,
                " is undefined in the scope"@,
            ),
            EngineError::MismatchedParameterCount { actual, expected } => parameter_count_text(
                actual as nat,
                expected as nat,
            ),
            EngineError::MismatchedTypes { actual, expected } => type_mismatch_text(
                actual,
                expected,
            ),
            EngineError::NotYetImplemented => "This feature is not yet implemented"@,
            EngineError::Unknown => "An unknown error occurred"@,
        }
    }

    /// The whole diagnostic: the header, the separator, the message.
    pub open spec fn rendered(&self) -> Seq<char> {
        header_text() + separator_text() + self.message_text()
    }

    /// Builds the explanation of this failure, without the header.
    pub fn message(&self) -> (msg: String)
        ensures
            msg@ == self.message_text(),
    {
        match self {
            EngineError::InvalidAddOperation { x, y } => missing_handler_msg("ADD", x, y),
            EngineError::InvalidSubOperation { x, y } => missing_handler_msg("SUB", x, y),
            EngineError::InvalidMulOperation { x, y } => missing_handler_msg("MUL", x, y),
            EngineError::InvalidDivOperation { x, y } => missing_handler_msg("DIV", x, y),
            EngineError::InvalidNegOperation { x } => missing_handler_msg_single("NEG", x),
            EngineError::InvalidGreaterThanOperation { x, y } => {
                missing_handler_msg("GREATER_THAN", x, y)
            },
            EngineError::InvalidGreaterThanOrEqOperation { x, y } => {
                missing_handler_msg("GREATER_THAN_OR_EQ", x, y)
            },
            EngineError::InvalidLessThanOperation { x, y } => {
                missing_handler_msg("LESS_THAN", x, y)
            },
            EngineError::InvalidLessThanOrEqOperation { x, y } => {
                missing_handler_msg("LESS_THAN_OR_EQ", x, y)
            },
            EngineError::InvalidNotOperation { x } => missing_handler_msg_single("NOT", x),
            EngineError::InvalidAndOperation { x, y } => missing_handler_msg("AND", x, y),
            EngineError::InvalidOrOperation { x, y } => missing_handler_msg("OR", x, y),
            EngineError::VariableAlreadyExists { variable_name } => identifier_msg(
                "The variable ",
                variable_name.as_str(),
                " already exists in the scope",
            ),
            EngineError::VariableUndefined { variable_name } => identifier_msg(
                "The variable ",
                variable_name.as_str(),
                " is undefined in the scope",
            ),
            EngineError::FunctionAlreadyExists { function_name } => identifier_msg(
                "The function ",
                function_name.as_str(),
                " already exists in the scope",
            ),
            EngineError::FunctionUndefined { function_name } => identifier_msg(
                "The function ",
                function_name.as_str(),
                " is undefined in the scope",
            ),
            EngineError::MismatchedParameterCount { actual, expected } => parameter_count_msg(
                *actual,
                *expected,
            ),
            EngineError::MismatchedTypes { actual, expected } => type_mismatch_msg(
                actual,
                expected,
            ),
            EngineError::NotYetImplemented => String::from_str(
                "This feature is not yet implemented",
            ),
            EngineError::Unknown => String::from_str("An unknown error occurred"),
        }
    }

    /// Renders this failure as the diagnostic shown to the user.
    pub fn render(&self) -> (out: String)
        ensures
            out@ == self.rendered(),
    {
        let msg = self.message();
        let mut out = highlight(Role::Header, "Engine Error");
        out.append(": ");
        out.append(msg.as_str());
        out
    }
}

} // verus!
