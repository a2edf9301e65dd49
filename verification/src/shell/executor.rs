//! The decisions of the shell executor: what to run for a command, whether
//! to run it at all, and what the captured outcome of a run means.
//!
//! Starting the process is left to the caller: `prepare` says what to start,
//! `conclude` turns what came back into an `ExecutionResult`.

use crate::shell::parser::empty_command_detail;
use crate::shell::{ShellError, ShellResult};
use crate::text::{blank, is_blank, lossy_text, utf8_lossy, views};
use crate::types::{ExecutionResult, ShellCommand};
use vstd::prelude::*;

verus! {

/// A process to start: the program and its arguments.
#[derive(Debug, Clone)]
pub struct Invocation {
    pub program: String,
    pub args: Vec<String>,
}

/// The views of a sequence of string slices.
pub open spec fn slice_views(v: Seq<&str>) -> Seq<Seq<char>> {
    Seq::new(v.len(), |i: int| v[i]@)
}

impl Invocation {
    /// This invocation starts `program` with `args`.
    pub open spec fn runs(self, program: Seq<char>, args: Seq<Seq<char>>) -> bool {
        self.program@ == program && views(self.args@) == args
    }

    /// The invocation of `program` with `args`.
    pub fn new(program: &str, args: &Vec<&str>) -> (invocation: Invocation)
        ensures
            invocation.runs(program@, slice_views(args@)),
    {
        let mut owned: Vec<String> = Vec::new();
        let mut i: usize = 0;
        while i < args.len()
            invariant
                i <= args.len(),
                owned@.len() == i,
                forall|k: int| 0 <= k < i ==> (#[trigger] owned@[k])@ == args@[k]@,
            decreases args.len() - i,
        {
            owned.push(String::from_str(args[i]));
            i = i + 1;
        }
        proof {
            assert(views(owned@) =~= slice_views(args@));
        }
        Invocation { program: String::from_str(program), args: owned }
    }
}

/// What a finished process left behind.
#[derive(Debug, Clone)]
pub struct ProcessOutput {
    /// Whether the exit status indicates success.
    pub success: bool,
    /// The exit code, if the process ended with one.
    pub exit_code: Option<i32>,
    /// Everything the process wrote to standard output.
    pub stdout: Vec<u8>,
    /// Everything the process wrote to standard error.
    pub stderr: Vec<u8>,
}

/// What the executor decides for a command.
#[derive(Debug, Clone)]
pub enum ExecutionStep {
    /// Nothing is to be run; this is the result.
    Finished(ExecutionResult),
    /// This process is to be started and its outcome handed to `conclude`.
    Spawn(Invocation),
}

/// The report of a dry run: no success, no error, exit code 0 and a fixed
/// explanation.
pub open spec fn is_dry_run(result: ExecutionResult) -> bool {
    &&& !result.success
    &&& result.output@ == "Auto-execution disabled"@
    &&& result.error is None
    &&& result.exit_code == 0
}

/// `result` reports a process that ended with `success` and `exit_code` and
/// wrote `output` and `error_text`.
pub open spec fn reports(
    result: ExecutionResult,
    success: bool,
    exit_code: Option<i32>,
    output: Seq<char>,
    error_text: Seq<char>,
) -> bool {
    &&& result.success == success
    &&& result.output@ == output
    &&& if error_text.len() == 0 {
        result.error is None
    } else {
        result.error matches Some(e) && e@ == error_text
    }
    &&& match exit_code {
        Some(code) => result.exit_code == code,
        None => result.exit_code == -1,
    }
}

impl ExecutionResult {
    /// The result for a process that ended with `success` and `exit_code`
    /// and wrote `output` to standard output and `error_text` to standard
    /// error. A missing exit code is reported as -1, an empty `error_text`
    /// as no error.
    pub fn from_captured(
        success: bool,
        exit_code: Option<i32>,
        output: String,
        error_text: String,
    ) -> (result: ExecutionResult)
        ensures
            reports(result, success, exit_code, output@, error_text@),
    {
        let error = if error_text.as_str().is_empty() {
            None
        } else {
            Some(error_text)
        };
        let code: i32 = match exit_code {
            Some(c) => c,
            None => -1,
        };
        ExecutionResult { success, output, error, exit_code: code }
    }
}

/// With auto-execute disabled nothing is run, whatever the command: the
/// outcome is a result without success, with exit code 0 and without error.
pub proof fn lemma_disabled_is_dry_run(
    executor: ShellExecutor,
    command: Seq<char>,
    step: ExecutionStep,
)
    requires
        !executor.auto_execute(),
        executor.prepares(command, step),
    ensures
        step matches ExecutionStep::Finished(result) && !result.success && result.exit_code == 0
            && result.error is None,
{
}

/// Shell command executor.
pub struct ShellExecutor {
    shell: String,
    auto_execute: bool,
}

impl ShellExecutor {
    /// The shell that runs the commands.
    pub closed spec fn shell(&self) -> Seq<char> {
        self.shell@
    }

    /// Whether commands are run at all.
    pub closed spec fn auto_execute(&self) -> bool {
        self.auto_execute
    }

    /// What `prepare` decides for `command`.
    pub open spec fn prepares(&self, command: Seq<char>, step: ExecutionStep) -> bool {
        if self.auto_execute() {
            &&& step matches ExecutionStep::Spawn(invocation)
            &&& invocation.program@ == self.shell()
            &&& views(invocation.args@) == seq!["-c"@, command]
        } else {
            step matches ExecutionStep::Finished(result) && is_dry_run(result)
        }
    }

    /// Create a new shell executor that runs commands with `shell`.
    pub fn new(shell: String) -> (s: Self)
        ensures
            s.shell() == shell@,
            s.auto_execute(),
    {
        Self { shell, auto_execute: true }
    }

    /// Set whether to auto-execute commands.
    pub fn set_auto_execute(&mut self, auto_execute: bool)
        ensures
            final(self).auto_execute() == auto_execute,
            final(self).shell() == old(self).shell(),
    {
        self.auto_execute = auto_execute;
    }

    /// The first half of running `command`: with auto-execute off the dry
    /// run's report, else the process to start, the shell with `-c` and the
    /// command line. The command is not inspected.
    pub fn prepare(&self, command: &ShellCommand) -> (step: ExecutionStep)
        ensures
            self.prepares(command.command@, step),
    {
        if !self.auto_execute {
            return ExecutionStep::Finished(
                ExecutionResult {
                    success: false,
                    output: String::from_str("Auto-execution disabled"),
                    error: None,
                    exit_code: 0,
                },
            );
        }
        let mut args: Vec<String> = Vec::new();
        args.push(String::from_str("-c"));
        args.push(command.command.clone());
        let invocation = Invocation { program: self.shell.clone(), args };
        proof {
            assert(views(invocation.args@) =~= seq!["-c"@, command.command@]);
        }
        ExecutionStep::Spawn(invocation)
    }

    /// The second half of running a command: `outcome` is what starting the
    /// process gave, its captured output or the reason why it could not be
    /// started. Only the latter is an error; a failing process is reported
    /// in the result.
    pub fn conclude(outcome: Result<ProcessOutput, String>) -> (r: ShellResult<ExecutionResult>)
        ensures
            match outcome {
                Ok(captured) => r matches Ok(result) && reports(
                    result,
                    captured.success,
                    captured.exit_code,
                    lossy_text(captured.stdout@),
                    lossy_text(captured.stderr@),
                ),
                Err(reason) => r matches Err(ShellError::Execution(m)) && m@ == reason@,
            },
    {
        match outcome {
            Ok(captured) => {
                let output = utf8_lossy(&captured.stdout);
                let error_text = utf8_lossy(&captured.stderr);
                Ok(
                    ExecutionResult::from_captured(
                        captured.success,
                        captured.exit_code,
                        output,
                        error_text,
                    ),
                )
            },
            Err(reason) => Err(ShellError::Execution(reason)),
        }
    }

    /// Validate a command without executing it: only an empty or blank
    /// command is rejected. The denylist is not consulted.
    pub fn validate(&self, command: &str) -> (r: ShellResult<()>)
        ensures
            is_blank(command@) ==> (r matches Err(e) && e.is_invalid_command(
                empty_command_detail(),
            )),
            !is_blank(command@) ==> r is Ok,
    {
        if blank(command) {
            return Err(ShellError::InvalidCommand(String::from_str("Empty command")));
        }
        Ok(())
    }
}

impl Default for ShellExecutor {
    fn default() -> (s: Self)
        ensures
            s.shell() == "bash"@,
            s.auto_execute(),
    {
        Self::new(String::from_str("bash"))
    }
}

} // verus!
