//! Validation errors raised for conflicting settings.
//!
//! Every operation that takes a settings record checks it for mutually
//! exclusive options before producing any output; on a conflict the chain
//! fails fast with the matching [`ValidationError`] and no partial pattern is
//! built.

use vstd::prelude::*;

verus! {

/// A conflict between options of a settings record.
///
/// These are deterministic caller-input validation failures; there are no
/// transient errors in this library.
#[derive(Debug, Clone, Copy, PartialEq, Eq, Structural)]
pub enum ValidationError {
    /// A repetition range or an exact count was combined with `*` or `+`.
    ConflictingRepetition,
    /// `*` and `+` were both requested.
    ConflictingQuantifierPair,
    /// A repetition range and an exact count were both requested.
    ConflictingCountSpec,
    /// A non-capturing group was also marked as a lookahead.
    InvalidGroupMode,
    /// Positive and negative lookahead were both requested.
    ConflictingLookaheadModes,
    /// A lookahead group was also marked optional.
    QuantifiedLookahead,
}

/// The descriptive text of each validation error.
pub open spec fn error_chars(e: ValidationError) -> Seq<char> {
    match e {
        ValidationError::ConflictingRepetition => "cannot have range and * or + next to each other."@,
        ValidationError::ConflictingQuantifierPair => "cannot have * and + next to each other."@,
        ValidationError::ConflictingCountSpec => "cannot have two quantifiers next to each other."@,
        ValidationError::InvalidGroupMode => "group cannot be non-capture and lookahead at the same time."@,
        ValidationError::ConflictingLookaheadModes => "group cannot be positive and negative lookahead at the same time."@,
        ValidationError::QuantifiedLookahead => "group cannot be lookahead and optional at the same time."@,
    }
}

impl ValidationError {
    /// A short description of the conflict, for error reporting.
    pub fn description(&self) -> (result: &'static str)
        ensures
            result@ == error_chars(*self),
    {
        match self {
            ValidationError::ConflictingRepetition => "cannot have range and * or + next to each other.",
            ValidationError::ConflictingQuantifierPair => "cannot have * and + next to each other.",
            ValidationError::ConflictingCountSpec => "cannot have two quantifiers next to each other.",
            ValidationError::InvalidGroupMode => "group cannot be non-capture and lookahead at the same time.",
            ValidationError::ConflictingLookaheadModes => "group cannot be positive and negative lookahead at the same time.",
            ValidationError::QuantifiedLookahead => "group cannot be lookahead and optional at the same time.",
        }
    }
}

/// Builds a full error message naming the expression the error was found in.
pub fn error_builder(expression: &str, err_desc: &str) -> (result: String)
    ensures
        result@ == "invalid regex in "@ + expression@ + ": "@ + err_desc@ + "."@,
{
    let mut message = "invalid regex in ".to_owned();
    message.append(expression);
    message.append(": ");
    message.append(err_desc);
    message.append(".");
    proof {
        assert(message@ =~= "invalid regex in "@ + expression@ + ": "@ + err_desc@ + "."@);
    }
    message
}

} // verus!
