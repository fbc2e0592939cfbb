//! Commands to run and what to make of their outcome.
//!
//! Nothing here starts a process: a [`Command`] says what to start, and an
//! [`Output`] is what the caller saw when the process ended.

use crate::error::{text_result, unit_result, Error, ErrorView};
use vstd::prelude::*;
use vstd::string::*;
use vstd::utf8::{decode_utf8, valid_utf8};

verus! {

/// The exit code reported for a process that ended without one.
pub const NO_EXIT_CODE: i32 = -1;

/// A program and the arguments to start it with.
#[derive(Debug, PartialEq, Eq)]
pub struct Command {
    pub program: String,
    pub args: Vec<String>,
}

/// The model of a [`Command`].
pub struct CommandView {
    pub program: Seq<char>,
    pub args: Seq<Seq<char>>,
}

impl View for Command {
    type V = CommandView;

    open spec fn view(&self) -> CommandView {
        CommandView { program: self.program@, args: self.args.deep_view() }
    }
}

/// What a process left behind: its exit code, if it ended with one, and all that it wrote
/// to standard output.
#[derive(Debug, PartialEq, Eq)]
pub struct Output {
    pub code: Option<i32>,
    pub stdout: Vec<u8>,
}

/// The model of an [`Output`].
pub struct OutputView {
    pub code: Option<i32>,
    pub stdout: Seq<u8>,
}

impl View for Output {
    type V = OutputView;

    open spec fn view(&self) -> OutputView {
        OutputView { code: self.code, stdout: self.stdout@ }
    }
}

impl OutputView {
    /// A process succeeded if and only if it ended with exit code zero.
    pub open spec fn success(self) -> bool {
        self.code == Some(0i32)
    }

    /// The exit code to report: the one the process ended with, or [`NO_EXIT_CODE`].
    pub open spec fn reported_code(self) -> i32 {
        match self.code {
            Some(code) => code,
            None => NO_EXIT_CODE,
        }
    }

    /// The failure of the command named `command` that ended like this.
    pub open spec fn failure(self, command: Seq<char>) -> ErrorView {
        ErrorView::CommandFailed { command, code: self.reported_code() }
    }
}

/// What [`run`] returns.
pub open spec fn run_result(command: Seq<char>, output: OutputView) -> Result<(), ErrorView> {
    if output.success() {
        Ok(())
    } else {
        Err(output.failure(command))
    }
}

/// What [`get_stdout`] returns.
pub open spec fn stdout_result(command: Seq<char>, output: OutputView) -> Result<
    Seq<char>,
    ErrorView,
> {
    if !output.success() {
        Err(output.failure(command))
    } else if valid_utf8(output.stdout) {
        Ok(decode_utf8(output.stdout))
    } else {
        Err(ErrorView::InvalidUtf8(output.stdout))
    }
}

/// Calls `std::str::from_utf8`, which gives the string that `bytes` encode where they are
/// valid UTF-8, and nothing where they are not.
#[verifier::external_body]
pub(crate) fn str_from_utf8<'a>(bytes: &'a [u8]) -> (r: Option<&'a str>)
    ensures
        match r {
            Some(text) => valid_utf8(bytes@) && text@ == decode_utf8(bytes@),
            None => !valid_utf8(bytes@),
        },
{
    match std::str::from_utf8(bytes) {
        Ok(text) => Some(text),
        Err(_) => None,
    }
}

impl Command {
    /// The command that starts `program` without arguments.
    pub fn new(program: &str) -> (c: Command)
        ensures
            c@ == (CommandView { program: program@, args: Seq::empty() }),
    {
        let c = Command { program: program.to_owned(), args: Vec::new() };
        assert(c.args.deep_view() =~= Seq::<Seq<char>>::empty());
        c
    }

    /// This command with `value` added as its last argument.
    pub fn arg(self, value: &str) -> (c: Command)
        ensures
            c@ == (CommandView { program: self@.program, args: self@.args.push(value@) }),
    {
        let mut args = self.args;
        let ghost before = args.deep_view();
        args.push(value.to_owned());
        assert(args.deep_view() =~= before.push(value@));
        Command { program: self.program, args }
    }
}

impl Output {
    /// Whether the process ended with exit code zero.
    pub fn success(&self) -> (b: bool)
        ensures
            b == self@.success(),
    {
        match self.code {
            Some(code) => code == 0,
            None => false,
        }
    }

    /// The failure of the command named `command` that ended like this.
    pub fn failure(&self, command: &str) -> (e: Error)
        ensures
            e@ == self@.failure(command@),
    {
        let code: i32 = match self.code {
            Some(code) => code,
            None => NO_EXIT_CODE,
        };
        Error::CommandFailed { command: command.to_owned(), code }
    }
}

/// Judges a finished run of `command`: it succeeded if and only if its exit code is zero,
/// and otherwise failed with `CommandFailed`, which names the command and the code.
pub fn run(command: &str, output: &Output) -> (r: Result<(), Error>)
    ensures
        unit_result(r) == run_result(command@, output@),
{
    if output.success() {
        Ok(())
    } else {
        Err(output.failure(command))
    }
}

/// Judges a finished run of `command` as [`run`] does and, where it succeeded, returns what
/// it wrote to standard output, untouched. Output that is not UTF-8 is an `InvalidUtf8` error.
pub fn get_stdout(command: &str, output: Output) -> (r: Result<String, Error>)
    ensures
        text_result(r) == stdout_result(command@, output@),
{
    if !output.success() {
        return Err(output.failure(command));
    }
    match str_from_utf8(output.stdout.as_slice()) {
        Some(text) => Ok(text.to_owned()),
        None => Err(Error::InvalidUtf8(output.stdout)),
    }
}

} // verus!
