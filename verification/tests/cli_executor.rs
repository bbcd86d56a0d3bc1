use gg::cli_executor::{CliError, JjCliExecutor};
use gg::messages::AbandonRevisions;
use gg::protocol::{Command, Reply, Request, Step};

fn strings(v: &[&str]) -> Vec<String> {
    v.iter().map(|s| s.to_string()).collect()
}

#[test]
fn test_executor_creation() {
    let executor = JjCliExecutor::new("/tmp/test".to_string());
    assert_eq!(executor.repo_path, "/tmp/test");
}

#[test]
fn command_line_selects_repository_and_disables_colour() {
    let executor = JjCliExecutor::new("/repo".to_string());
    let line = executor.command_line(&strings(&["abandon", "abc"]));
    assert_eq!(line, strings(&["-R", "/repo", "--color=never", "abandon", "abc"]));
}

#[test]
fn command_line_of_no_arguments() {
    let executor = JjCliExecutor::new("r".to_string());
    assert_eq!(executor.command_line(&Vec::new()), strings(&["-R", "r", "--color=never"]));
}

#[test]
fn command_line_with_stdin_can_ignore_working_copy() {
    let executor = JjCliExecutor::new("/repo".to_string());
    let args = strings(&["describe", "--stdin"]);
    assert_eq!(
        executor.command_line_with_stdin(&args, true),
        strings(&["-R", "/repo", "--ignore-working-copy", "--color=never", "describe", "--stdin"])
    );
    assert_eq!(
        executor.command_line_with_stdin(&args, false),
        strings(&["-R", "/repo", "--color=never", "describe", "--stdin"])
    );
}

#[test]
fn successful_output_is_decoded() {
    let out = JjCliExecutor::interpret_output(true, "héllo\n".as_bytes().to_vec(), b"");
    assert_eq!(out, Ok("héllo\n".to_string()));
}

#[test]
fn successful_output_that_is_not_utf8_is_an_error() {
    let out = JjCliExecutor::interpret_output(true, vec![0x66, 0xff, 0x6f], b"");
    let cause = String::from_utf8(vec![0x66, 0xff, 0x6f]).unwrap_err().to_string();
    assert_eq!(cause, "invalid utf-8 sequence of 1 bytes from index 1");
    let expected = CliError::OutputNotUtf8 { cause: cause.clone() };
    assert_eq!(out, Err(expected.clone()));
    assert_eq!(
        expected.message(),
        "Failed to parse jj output as UTF-8: invalid utf-8 sequence of 1 bytes from index 1".to_string()
    );
}

#[test]
fn failed_command_reports_stderr_lossily() {
    let out = JjCliExecutor::interpret_output(false, b"ignored".to_vec(), b"Error: no\xffway");
    let expected = CliError::CommandFailed { stderr: "Error: no\u{fffd}way".to_string() };
    assert_eq!(out, Err(expected.clone()));
    assert_eq!(expected.message(), "jj command failed: Error: no\u{fffd}way".to_string());
}

#[test]
fn mutation_commands_ignore_the_working_copy() {
    let executor = JjCliExecutor::new("/repo".to_string());
    let command = Command {
        args: strings(&["abandon", "abc::"]),
        context: "Failed to abandon revisions via CLI".to_string(),
        ignore_working_copy: true,
    };
    assert_eq!(
        executor.mutation_command_line(&command),
        strings(&["-R", "/repo", "--ignore-working-copy", "--color=never", "abandon", "abc::"])
    );
    let plain = Command { ignore_working_copy: false, ..command };
    assert_eq!(
        executor.mutation_command_line(&plain),
        strings(&["-R", "/repo", "--color=never", "abandon", "abc::"])
    );
}

#[test]
fn stdin_without_flag_matches_plain_command_line() {
    let executor = JjCliExecutor::new("/r".to_string());
    let args = strings(&["describe", "-m", "x"]);
    assert_eq!(executor.command_line_with_stdin(&args, false), executor.command_line(&args));
}

#[test]
fn abandon_plan_runs_without_touching_the_working_copy() {
    let m = AbandonRevisions { revset: "abc".to_string() };
    let step = m.execute_cli(&vec![Reply::Immutable { immutable: false }]);
    match step {
        Step::Ask { request: Request::Run { command } } => {
            let executor = JjCliExecutor::new("/repo".to_string());
            assert_eq!(
                executor.mutation_command_line(&command),
                strings(&["-R", "/repo", "--ignore-working-copy", "--color=never", "abandon", "abc"])
            );
        }
        other => panic!("unexpected step {:?}", other),
    }
}
