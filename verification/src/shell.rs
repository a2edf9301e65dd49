//! Parsing, safety classification and execution of shell commands.

use vstd::prelude::*;

pub mod executor;
pub mod parser;

pub use executor::{ExecutionStep, Invocation, ProcessOutput, ShellExecutor};
pub use parser::CommandParser;

verus! {

/// Error type for shell operations.
#[derive(Debug)]
pub enum ShellError {
    Execution(String),
    CommandNotFound(String),
    PermissionDenied(String),
    InvalidCommand(String),
}

/// Result type for shell operations.
pub type ShellResult<T> = Result<T, ShellError>;

impl ShellError {
    /// The text shown to the user for this error.
    pub open spec fn text(self) -> Seq<char> {
        match self {
            ShellError::Execution(m) => "Failed to execute command: "@ + m@,
            ShellError::CommandNotFound(m) => "Command not found: "@ + m@,
            ShellError::PermissionDenied(m) => "Permission denied: "@ + m@,
            ShellError::InvalidCommand(m) => "Invalid command: "@ + m@,
        }
    }

    /// The text shown to the user for this error.
    pub fn message(&self) -> (r: String)
        ensures
            r@ == self.text(),
    {
        match self {
            ShellError::Execution(m) => String::from_str("Failed to execute command: ").concat(
                m.as_str(),
            ),
            ShellError::CommandNotFound(m) => String::from_str("Command not found: ").concat(
                m.as_str(),
            ),
            ShellError::PermissionDenied(m) => String::from_str("Permission denied: ").concat(
                m.as_str(),
            ),
            ShellError::InvalidCommand(m) => String::from_str("Invalid command: ").concat(
                m.as_str(),
            ),
        }
    }

    /// This error is an `InvalidCommand` whose detail reads `detail`.
    pub open spec fn is_invalid_command(self, detail: Seq<char>) -> bool {
        self matches ShellError::InvalidCommand(m) && m@ == detail
    }
}

} // verus!
