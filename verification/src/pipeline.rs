//! The guard between translation and execution.
//!
//! A translated command reaches the executor only through `guarded_prepare`,
//! which composes the checks that the parts leave to their caller: the
//! command is not blank, it does not match the denylist, and it does not
//! carry a confidence of 0.

use crate::shell::executor::{ExecutionStep, ShellExecutor};
use crate::shell::parser::{
    dangerous_command_detail, empty_command_detail, is_dangerous_command, CommandParser,
};
use crate::shell::{ShellError, ShellResult};
use crate::text::is_blank;
use crate::types::ShellCommand;
use vstd::prelude::*;

verus! {

/// The detail of the error for a command with confidence 0.
pub open spec fn no_confidence_detail() -> Seq<char> {
    "Command has no confidence"@
}

/// Why the guard stops `command`, if it does: the detail of the error.
pub open spec fn rejection(command: ShellCommand) -> Option<Seq<char>> {
    if is_blank(command.command@) {
        Some(empty_command_detail())
    } else if is_dangerous_command(command.command@) {
        Some(dangerous_command_detail())
    } else if command.confidence.value() == 0 {
        Some(no_confidence_detail())
    } else {
        None
    }
}

/// `outcome` is what the guard decides for `command` in front of `executor`:
/// the reason why the command is stopped, or what the executor prepares.
pub open spec fn is_guarded_step(
    executor: ShellExecutor,
    command: ShellCommand,
    outcome: ShellResult<ExecutionStep>,
) -> bool {
    match rejection(command) {
        Some(detail) => outcome matches Err(e) && e.is_invalid_command(detail),
        None => outcome matches Ok(step) && executor.prepares(command.command@, step),
    }
}

/// A command that the safety validation rejects never reaches the executor:
/// whatever the executor and the command, if the command matches the
/// denylist then the guard's outcome starts no process.
pub proof fn lemma_rejected_never_spawns(
    executor: ShellExecutor,
    command: ShellCommand,
    outcome: ShellResult<ExecutionStep>,
)
    requires
        is_dangerous_command(command.command@),
        is_guarded_step(executor, command, outcome),
    ensures
        outcome is Err,
        !(outcome matches Ok(ExecutionStep::Spawn(_))),
{
}

/// A command with confidence 0 is never run: the guard's outcome for it
/// starts no process.
pub proof fn lemma_no_confidence_never_spawns(
    executor: ShellExecutor,
    command: ShellCommand,
    outcome: ShellResult<ExecutionStep>,
)
    requires
        command.confidence.value() == 0,
        is_guarded_step(executor, command, outcome),
    ensures
        outcome is Err,
{
}

/// Decides what is to be done with a translated command: it is stopped with
/// an `InvalidCommand` error if it is blank, matches the denylist or has
/// confidence 0, and handed to the executor otherwise.
pub fn guarded_prepare(executor: &ShellExecutor, command: &ShellCommand) -> (outcome: ShellResult<
    ExecutionStep,
>)
    ensures
        is_guarded_step(*executor, *command, outcome),
{
    match executor.validate(command.command.as_str()) {
        Err(e) => {
            return Err(e);
        },
        Ok(_) => {},
    }
    match CommandParser::validate_safety(command.command.as_str()) {
        Err(e) => {
            return Err(e);
        },
        Ok(_) => {},
    }
    if command.confidence.is_zero() {
        return Err(ShellError::InvalidCommand(String::from_str("Command has no confidence")));
    }
    Ok(executor.prepare(command))
}

} // verus!
