//! The typed failures a command can produce, and their stable kind names.

use vstd::prelude::*;

verus! {

/// A command failure.
///
/// All failures are values; the process only turns them into a non-zero
/// exit code at the very end. `NotSupportedError` marks command variants
/// that exist on the surface but are not implemented yet.
#[derive(Clone, Debug, PartialEq, Eq)]
pub enum CliError {
    /// Malformed user input: address syntax, named-address map syntax.
    CommandArgumentError(String),
    /// The external builder failed; its message is passed through.
    MoveCompilationError(String),
    /// Environment or filesystem access failures not attributable to user input.
    UnexpectedError(String),
    /// The requested operation is not implemented yet.
    NotSupportedError(String),
}

impl CliError {
    /// The stable kind name of this error.
    pub open spec fn spec_kind(&self) -> Seq<char> {
        match self {
            CliError::CommandArgumentError(_) => "CommandArgumentError"@,
            CliError::MoveCompilationError(_) => "MoveCompilationError"@,
            CliError::UnexpectedError(_) => "UnexpectedError"@,
            CliError::NotSupportedError(_) => "NotSupportedError"@,
        }
    }

    /// The human-readable message carried by this error.
    pub open spec fn spec_message(&self) -> Seq<char> {
        match self {
            CliError::CommandArgumentError(m) => m@,
            CliError::MoveCompilationError(m) => m@,
            CliError::UnexpectedError(m) => m@,
            CliError::NotSupportedError(m) => m@,
        }
    }

    /// Returns the stable kind name, used for logging and for the envelope.
    pub fn to_str(&self) -> (r: &'static str)
        ensures
            r@ == self.spec_kind(),
    {
        match self {
            CliError::CommandArgumentError(_) => "CommandArgumentError",
            CliError::MoveCompilationError(_) => "MoveCompilationError",
            CliError::UnexpectedError(_) => "UnexpectedError",
            CliError::NotSupportedError(_) => "NotSupportedError",
        }
    }

    /// Returns the carried message.
    pub fn message(&self) -> (r: &str)
        ensures
            r@ == self.spec_message(),
    {
        match self {
            CliError::CommandArgumentError(m) => m.as_str(),
            CliError::MoveCompilationError(m) => m.as_str(),
            CliError::UnexpectedError(m) => m.as_str(),
            CliError::NotSupportedError(m) => m.as_str(),
        }
    }
}

} // verus!
