//! Building the command line of a `jj` invocation and interpreting what the
//! process reported.

use vstd::prelude::*;
use vstd::string::StringExecFns;
use vstd::utf8::{decode_utf8, valid_utf8};

use crate::protocol::Command;
use crate::text::{
    owned, string_from_utf8, string_from_utf8_lossy, strings_model, utf8_error_text, utf8_lossy,
};

verus! {

/// Runs `jj` against one repository.
#[derive(Debug, Clone, PartialEq, Eq)]
pub struct JjCliExecutor {
    pub repo_path: String,
}

/// The arguments handed to `jj` before the command's own arguments: the
/// repository, the optional `--ignore-working-copy`, and colourless output.
pub open spec fn global_args(repo_path: Seq<char>, ignore_working_copy: bool) -> Seq<Seq<char>> {
    seq!["-R"@, repo_path] + (if ignore_working_copy {
        seq!["--ignore-working-copy"@]
    } else {
        Seq::empty()
    }) + seq!["--color=never"@]
}

/// The full argument list of a plain invocation of `jj` with `args`.
pub open spec fn plain_command_line(repo_path: Seq<char>, args: Seq<Seq<char>>) -> Seq<Seq<char>> {
    global_args(repo_path, false) + args
}

/// The full argument list of an invocation of `jj` with `args` that reads
/// its standard input, with `--ignore-working-copy` when asked for.
pub open spec fn stdin_command_line(repo_path: Seq<char>, args: Seq<Seq<char>>, ignore_working_copy: bool) -> Seq<Seq<char>> {
    global_args(repo_path, ignore_working_copy) + args
}

/// Reading standard input without `--ignore-working-copy` runs `jj` with
/// the same arguments as the plain invocation, and with the flag adds
/// exactly `--ignore-working-copy` after the repository.
pub proof fn law_stdin_command_line(repo_path: Seq<char>, args: Seq<Seq<char>>)
    ensures
        stdin_command_line(repo_path, args, false) == plain_command_line(repo_path, args),
        plain_command_line(repo_path, args) == seq!["-R"@, repo_path, "--color=never"@] + args,
        stdin_command_line(repo_path, args, true) == seq![
            "-R"@,
            repo_path,
            "--ignore-working-copy"@,
            "--color=never"@,
        ] + args,
{
    assert(global_args(repo_path, false) =~= seq!["-R"@, repo_path, "--color=never"@]);
    assert(global_args(repo_path, true) =~= seq![
        "-R"@,
        repo_path,
        "--ignore-working-copy"@,
        "--color=never"@,
    ]);
}

/// Why a `jj` invocation did not yield its output.
#[derive(Debug, Clone, PartialEq, Eq)]
pub enum CliError {
    /// The process succeeded but its standard output is not UTF-8.
    /// `cause` is the text of the decoding error.
    OutputNotUtf8 { cause: String },
    /// The process failed; `stderr` is its standard error, decoded lossily.
    CommandFailed { stderr: String },
}

impl JjCliExecutor {
    /// An executor for the repository at `repo_path`.
    pub fn new(repo_path: String) -> (executor: Self)
        ensures
            executor.repo_path == repo_path,
    {
        JjCliExecutor { repo_path }
    }

    fn prefixed(&self, args: &Vec<String>, ignore_working_copy: bool) -> (line: Vec<String>)
        ensures
            strings_model(line@) == global_args(self.repo_path@, ignore_working_copy)
                + strings_model(args@),
    {
        let mut line: Vec<String> = Vec::new();
        line.push(owned("-R"));
        line.push(self.repo_path.clone());
        if ignore_working_copy {
            line.push(owned("--ignore-working-copy"));
        }
        line.push(owned("--color=never"));
        let ghost start = strings_model(line@);
        assert(start == global_args(self.repo_path@, ignore_working_copy));
        let mut i: usize = 0;
        while i < args.len()
            invariant
                0 <= i <= args.len(),
                strings_model(line@) == start + strings_model(args@.take(i as int)),
            decreases args.len() - i,
        {
            let ghost before = line@;
            line.push(args[i].clone());
            assert(args@.take(i as int + 1) == args@.take(i as int).push(args@[i as int]));
            assert(strings_model(line@) =~= strings_model(before).push(args@[i as int]@));
            assert(strings_model(args@.take(i as int + 1)) =~= strings_model(args@.take(i as int)).push(
                args@[i as int]@,
            ));
            i = i + 1;
        }
        assert(args@.take(args.len() as int) == args@);
        line
    }

    /// The full argument list of `jj` for the command `args`: the repository
    /// is selected with `-R` and colour is switched off.
    pub fn command_line(&self, args: &Vec<String>) -> (line: Vec<String>)
        ensures
            strings_model(line@) == plain_command_line(self.repo_path@, strings_model(args@)),
    {
        self.prefixed(args, false)
    }

    /// The full argument list of `jj` for a command that reads its standard
    /// input; `--ignore-working-copy` is added when asked for.
    pub fn command_line_with_stdin(&self, args: &Vec<String>, ignore_working_copy: bool) -> (line:
        Vec<String>)
        ensures
            strings_model(line@) == stdin_command_line(
                self.repo_path@,
                strings_model(args@),
                ignore_working_copy,
            ),
    {
        self.prefixed(args, ignore_working_copy)
    }

    /// The full argument list of `jj` for a mutation's command: its
    /// arguments after the repository, `--ignore-working-copy` when the
    /// command asks for it, and `--color=never`.
    pub fn mutation_command_line(&self, command: &Command) -> (line: Vec<String>)
        ensures
            strings_model(line@) == global_args(self.repo_path@, command.ignore_working_copy)
                + command@.args,
    {
        self.prefixed(&command.args, command.ignore_working_copy)
    }

    /// What a finished `jj` process yields: its standard output when it
    /// succeeded and that output is UTF-8, otherwise the reason it did not.
    pub fn interpret_output(success: bool, stdout: Vec<u8>, stderr: &[u8]) -> (res: Result<
        String,
        CliError,
    >)
        ensures
            success && valid_utf8(stdout@) ==> (res matches Ok(out) && out@ == decode_utf8(stdout@)),
            success && !valid_utf8(stdout@) ==> (res matches Err(CliError::OutputNotUtf8 { cause })
                && cause@ == utf8_error_text(stdout@)),
            !success ==> (res matches Err(CliError::CommandFailed { stderr: text }) && text@
                == utf8_lossy(stderr@)),
    {
        if success {
            match string_from_utf8(stdout) {
                Ok(out) => Ok(out),
                Err(cause) => Err(CliError::OutputNotUtf8 { cause }),
            }
        } else {
            Err(CliError::CommandFailed { stderr: string_from_utf8_lossy(stderr) })
        }
    }
}

impl CliError {
    /// The message this error is reported with.
    pub fn message(&self) -> (m: String)
        ensures
            m@ == match self {
                CliError::OutputNotUtf8 { cause } => "Failed to parse jj output as UTF-8: "@
                    + cause@,
                CliError::CommandFailed { stderr } => "jj command failed: "@ + stderr@,
            },
    {
        match self {
            CliError::OutputNotUtf8 { cause } => {
                let mut m = owned("Failed to parse jj output as UTF-8: ");
                m.append(cause.as_str());
                m
            },
            CliError::CommandFailed { stderr } => {
                let mut m = owned("jj command failed: ");
                m.append(stderr.as_str());
                m
            },
        }
    }
}

} // verus!
