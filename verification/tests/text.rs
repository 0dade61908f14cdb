use nix_installer::command::execute_command;
use nix_installer::action::ActionErrorKind;
use nix_installer::system::{CommandLine, CommandOutput, OsError, Response};
use nix_installer::text::decimal;

#[test]
fn numbers_are_written_in_decimal() {
    assert_eq!(decimal(0), "0");
    assert_eq!(decimal(7), "7");
    assert_eq!(decimal(10), "10");
    assert_eq!(decimal(30000), "30000");
    assert_eq!(decimal(1234567890), "1234567890");
    assert_eq!(decimal(u64::MAX), "18446744073709551615");
}

fn command() -> CommandLine {
    CommandLine {
        program: String::from("systemctl"),
        args: vec![String::from("daemon-reload")],
        process_group: Some(0),
        stdin_null: true,
    }
}

fn output(code: Option<i32>) -> CommandOutput {
    CommandOutput {
        code,
        stdout: b"out".to_vec(),
        stderr: b"err".to_vec(),
    }
}

#[test]
fn a_command_succeeds_with_exit_code_zero_only() {
    assert!(output(Some(0)).success());
    assert!(!output(Some(1)).success());
    assert!(!output(Some(-1)).success());
    assert!(!output(None).success());
}

#[test]
fn the_output_of_a_successful_command_is_handed_on() {
    let result = execute_command(command(), &Response::Ran(Ok(output(Some(0)))));
    let output = result.unwrap();
    assert_eq!(output.code, Some(0));
    assert_eq!(output.stdout, b"out");
    assert_eq!(output.stderr, b"err");
}

#[test]
fn a_failed_command_carries_its_command_line_and_output() {
    let result = execute_command(command(), &Response::Ran(Ok(output(Some(3)))));
    match result.unwrap_err() {
        ActionErrorKind::CommandOutput { command, output } => {
            assert_eq!(command.program, "systemctl");
            assert_eq!(command.args, vec!["daemon-reload"]);
            assert_eq!(command.process_group, Some(0));
            assert!(command.stdin_null);
            assert_eq!(output.code, Some(3));
            assert_eq!(output.stderr, b"err");
        }
        other => panic!("unexpected error {other:?}"),
    }
}

#[test]
fn a_command_that_did_not_start_carries_the_systems_error() {
    let error = OsError {
        code: Some(2),
        message: String::from("No such file or directory"),
    };
    match execute_command(command(), &Response::Ran(Err(error))).unwrap_err() {
        ActionErrorKind::Command { command, error } => {
            assert_eq!(command.program, "systemctl");
            assert_eq!(error.code, Some(2));
            assert_eq!(error.message, "No such file or directory");
        }
        other => panic!("unexpected error {other:?}"),
    }
}

#[test]
fn another_response_is_no_command_result() {
    assert!(matches!(
        execute_command(command(), &Response::Exists(Ok(true))),
        Err(ActionErrorKind::UnexpectedResponse)
    ));
}
