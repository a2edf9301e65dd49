use cmdr::pipeline::guarded_prepare;
use cmdr::shell::{ExecutionStep, ProcessOutput, ShellError, ShellExecutor};
use cmdr::{Confidence, ExecutionResult, ShellCommand};

fn command(text: &str) -> ShellCommand {
    ShellCommand {
        command: text.to_string(),
        explanation: None,
        confidence: Confidence::from_per_mille(800).unwrap(),
    }
}

fn finished(step: ExecutionStep) -> ExecutionResult {
    match step {
        ExecutionStep::Finished(result) => result,
        ExecutionStep::Spawn(invocation) => panic!("unexpected spawn of {:?}", invocation),
    }
}

#[test]
fn disabled_auto_execute_is_a_dry_run() {
    let mut executor = ShellExecutor::default();
    executor.set_auto_execute(false);
    for text in ["echo hi", "", "rm -rf /"] {
        let result = finished(executor.prepare(&command(text)));
        assert!(!result.success);
        assert_eq!(result.exit_code, 0);
        assert_eq!(result.error, None);
        assert_eq!(result.output, "Auto-execution disabled");
    }
}

#[test]
fn enabled_auto_execute_starts_the_shell() {
    let executor = ShellExecutor::new("zsh".to_string());
    match executor.prepare(&command("echo hi")) {
        ExecutionStep::Spawn(invocation) => {
            assert_eq!(invocation.program, "zsh");
            assert_eq!(invocation.args, vec!["-c".to_string(), "echo hi".to_string()]);
        }
        ExecutionStep::Finished(result) => panic!("unexpected result {:?}", result),
    }
}

#[test]
fn default_executor_uses_bash_and_runs_commands() {
    let executor = ShellExecutor::default();
    match executor.prepare(&command("true")) {
        ExecutionStep::Spawn(invocation) => assert_eq!(invocation.program, "bash"),
        ExecutionStep::Finished(result) => panic!("unexpected result {:?}", result),
    }
}

#[test]
fn auto_execute_can_be_switched_back_on() {
    let mut executor = ShellExecutor::default();
    executor.set_auto_execute(false);
    executor.set_auto_execute(true);
    assert!(matches!(executor.prepare(&command("true")), ExecutionStep::Spawn(_)));
}

#[test]
fn successful_process_is_reported() {
    let outcome = Ok(ProcessOutput {
        success: true,
        exit_code: Some(0),
        stdout: b"hi\n".to_vec(),
        stderr: Vec::new(),
    });
    let result = ShellExecutor::conclude(outcome).unwrap();
    assert!(result.success);
    assert!(result.output.contains("hi"));
    assert_eq!(result.output, "hi\n");
    assert_eq!(result.error, None);
    assert_eq!(result.exit_code, 0);
}

#[test]
fn failing_process_is_data_not_an_error() {
    let outcome = Ok(ProcessOutput {
        success: false,
        exit_code: Some(2),
        stdout: Vec::new(),
        stderr: b"ls: cannot access 'x'\n".to_vec(),
    });
    let result = ShellExecutor::conclude(outcome).unwrap();
    assert!(!result.success);
    assert_eq!(result.output, "");
    assert_eq!(result.error, Some("ls: cannot access 'x'\n".to_string()));
    assert_eq!(result.exit_code, 2);
}

#[test]
fn missing_exit_code_is_minus_one() {
    let outcome = Ok(ProcessOutput {
        success: false,
        exit_code: None,
        stdout: Vec::new(),
        stderr: Vec::new(),
    });
    let result = ShellExecutor::conclude(outcome).unwrap();
    assert_eq!(result.exit_code, -1);
    assert_eq!(result.error, None);
}

#[test]
fn invalid_utf8_in_output_is_replaced() {
    let outcome = Ok(ProcessOutput {
        success: true,
        exit_code: Some(0),
        stdout: vec![b'a', 0xff, b'b'],
        stderr: vec![0xfe],
    });
    let result = ShellExecutor::conclude(outcome).unwrap();
    assert_eq!(result.output, "a\u{fffd}b");
    assert_eq!(result.error, Some("\u{fffd}".to_string()));
}

#[test]
fn spawn_failure_is_an_execution_error() {
    let error = ShellExecutor::conclude(Err("No such file or directory".to_string())).unwrap_err();
    assert!(matches!(&error, ShellError::Execution(m) if m == "No such file or directory"));
    assert_eq!(error.message(), "Failed to execute command: No such file or directory");
}

#[test]
fn from_captured_keeps_what_was_captured() {
    let result =
        ExecutionResult::from_captured(true, Some(7), "out".to_string(), "err".to_string());
    assert!(result.success);
    assert_eq!(result.exit_code, 7);
    assert_eq!(result.output, "out");
    assert_eq!(result.error, Some("err".to_string()));
}

#[test]
fn validate_rejects_blank_commands_only() {
    let executor = ShellExecutor::default();
    assert!(matches!(
        executor.validate(""),
        Err(ShellError::InvalidCommand(m)) if m == "Empty command"
    ));
    assert!(matches!(executor.validate("  \n"), Err(ShellError::InvalidCommand(_))));
    assert!(executor.validate("ls").is_ok());
    assert!(executor.validate("rm -rf /").is_ok());
}

#[test]
fn guard_blocks_dangerous_commands() {
    let executor = ShellExecutor::default();
    let outcome = guarded_prepare(&executor, &command("rm -rf /"));
    assert!(matches!(
        outcome,
        Err(ShellError::InvalidCommand(m)) if m == "Command appears to be potentially dangerous"
    ));
}

#[test]
fn guard_blocks_dangerous_commands_in_a_dry_run_too() {
    let mut executor = ShellExecutor::default();
    executor.set_auto_execute(false);
    assert!(guarded_prepare(&executor, &command("sudo MKFS /dev/sda")).is_err());
}

#[test]
fn guard_blocks_blank_commands() {
    let executor = ShellExecutor::default();
    assert!(matches!(
        guarded_prepare(&executor, &command("  ")),
        Err(ShellError::InvalidCommand(m)) if m == "Empty command"
    ));
}

#[test]
fn guard_blocks_commands_without_confidence() {
    let executor = ShellExecutor::default();
    let mut doubtful = command("ls");
    doubtful.confidence = Confidence::from_per_mille(0).unwrap();
    assert!(matches!(
        guarded_prepare(&executor, &doubtful),
        Err(ShellError::InvalidCommand(m)) if m == "Command has no confidence"
    ));
}

#[test]
fn guard_lets_harmless_commands_through() {
    let executor = ShellExecutor::default();
    match guarded_prepare(&executor, &command("ls -la")).unwrap() {
        ExecutionStep::Spawn(invocation) => {
            assert_eq!(invocation.program, "bash");
            assert_eq!(invocation.args, vec!["-c".to_string(), "ls -la".to_string()]);
        }
        ExecutionStep::Finished(result) => panic!("unexpected result {:?}", result),
    }
}

#[test]
fn confidence_is_bounded_by_one() {
    assert!(Confidence::from_per_mille(1000).is_some());
    assert!(Confidence::from_per_mille(1001).is_none());
    assert_eq!(Confidence::from_per_mille(800).unwrap().per_mille(), 800);
    assert!(Confidence::from_per_mille(0).unwrap().is_zero());
    assert!(!Confidence::from_per_mille(1).unwrap().is_zero());
    let as_float = Confidence::from_per_mille(800).unwrap().per_mille() as f32 / 1000.0;
    assert_eq!(as_float, 0.8);
}
