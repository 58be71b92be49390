//! The ways in which the engine refuses or aborts.

use vstd::prelude::*;

verus! {

/// Why an engine operation failed.
#[derive(Clone, Copy, Debug, PartialEq, Eq, Structural)]
pub enum EngineError {
    /// The guest bytes are not a well-formed module.
    CompileError,
    /// The guest lacks one of the two entry points.
    MissingExport,
    /// An entry point exists but takes or returns other values than
    /// the guest interface asks for.
    SignatureMismatch,
    /// The guest could not be linked against the host bridge.
    InstantiationError,
    /// A guest call was aborted although its budget was not used up.
    GuestTrap,
    /// A bot was added when both slots were taken.
    TooManyBots,
    /// The operation is not allowed in the battle's current phase.
    InvalidStateTransition,
}

impl EngineError {
    /// A short name for the error, for reports.
    pub fn name(&self) -> (text: &'static str)
        ensures
            text@ == spec_error_name(*self),
    {
        match self {
            EngineError::CompileError => "compile error",
            EngineError::MissingExport => "missing export",
            EngineError::SignatureMismatch => "signature mismatch",
            EngineError::InstantiationError => "instantiation error",
            EngineError::GuestTrap => "guest trap",
            EngineError::TooManyBots => "too many bots",
            EngineError::InvalidStateTransition => "invalid state transition",
        }
    }
}

/// The name under which each error is reported.
pub open spec fn spec_error_name(error: EngineError) -> Seq<char> {
    match error {
        EngineError::CompileError => "compile error"@,
        EngineError::MissingExport => "missing export"@,
        EngineError::SignatureMismatch => "signature mismatch"@,
        EngineError::InstantiationError => "instantiation error"@,
        EngineError::GuestTrap => "guest trap"@,
        EngineError::TooManyBots => "too many bots"@,
        EngineError::InvalidStateTransition => "invalid state transition"@,
    }
}

} // verus!
