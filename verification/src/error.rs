//! Error types reported by the engine.

use vstd::prelude::*;

verus! {

/// Error raised by transition validation, definition validation and the
/// audit trail.
#[derive(Debug, PartialEq, Eq, Structural)]
pub enum FsmError {
    /// The attempted state transition is invalid.
    InvalidStateTransition,
    /// An invalid input was provided.
    InvalidInput,
    /// Insufficient quorum/members for the requested operation.
    InsufficientMembers,
    /// The requested transition cannot be performed because the system is in
    /// the wrong state.
    InvalidState,
    /// Number overflow detected while computing values.
    Overflow,
}

impl FsmError {
    /// A user-facing description of the error.
    pub fn message(&self) -> (m: &'static str)
        ensures
            *self == FsmError::InvalidStateTransition ==> m@ == "Invalid FSM state transition"@,
            *self == FsmError::InvalidInput ==> m@ == "Invalid input provided"@,
            *self == FsmError::InsufficientMembers ==> m@ == "Not enough members for quorum"@,
            *self == FsmError::InvalidState ==> m@ == "Invalid state for requested operation"@,
            *self == FsmError::Overflow ==> m@ == "Arithmetic overflow detected"@,
    {
        match self {
            FsmError::InvalidStateTransition => "Invalid FSM state transition",
            FsmError::InvalidInput => "Invalid input provided",
            FsmError::InsufficientMembers => "Not enough members for quorum",
            FsmError::InvalidState => "Invalid state for requested operation",
            FsmError::Overflow => "Arithmetic overflow detected",
        }
    }
}

/// Crate-level error for low-level value handling.
#[derive(Debug, PartialEq, Eq, Structural)]
pub enum IndrasError {
    InvalidState,
    InvalidInput,
    InsufficientFunds,
    Overflow,
}

impl IndrasError {
    /// A user-facing description of the error.
    pub fn message(&self) -> (m: &'static str)
        ensures
            *self == IndrasError::InvalidState ==> m@ == "Invalid grant state"@,
            *self == IndrasError::InvalidInput ==> m@ == "Invalid input to grant handler"@,
            *self == IndrasError::InsufficientFunds ==> m@ == "Insufficient funds for disbursement"@,
            *self == IndrasError::Overflow ==> m@ == "Numeric overflow"@,
    {
        match self {
            IndrasError::InvalidState => "Invalid grant state",
            IndrasError::InvalidInput => "Invalid input to grant handler",
            IndrasError::InsufficientFunds => "Insufficient funds for disbursement",
            IndrasError::Overflow => "Numeric overflow",
        }
    }
}

} // verus!
