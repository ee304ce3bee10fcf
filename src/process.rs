//! One external command: how it is launched, and what its end means.
use vstd::prelude::*;
use crate::logger::{code_block, code_block_of};
use crate::prompt::same_text;

verus! {

/// Where the output of a command goes.
#[derive(Debug, Clone, Copy, PartialEq, Eq, Structural)]
pub enum OutputMode {
    /// To the installer's own terminal, as the command runs.
    Inherit,
    /// Into buffers, shown only where the command fails.
    Capture,
}

/// A command as the installer describes it, in plain values.
pub struct CommandView {
    pub program: Seq<char>,
    pub args: Seq<Seq<char>>,
    pub cwd: Seq<char>,
    pub mode: OutputMode,
}

/// One launch of an external program.
#[derive(Debug, Clone)]
pub struct InvocationSpec {
    pub program: String,
    pub args: Vec<String>,
    pub cwd: String,
    pub mode: OutputMode,
}

/// The texts of a list of strings.
pub open spec fn texts(v: Seq<String>) -> Seq<Seq<char>> {
    v.map_values(|s: String| s@)
}

impl View for InvocationSpec {
    type V = CommandView;

    open spec fn view(&self) -> CommandView {
        CommandView { program: self.program@, args: texts(self.args@), cwd: self.cwd@, mode: self.mode }
    }
}

/// The words joined, a space between two of them.
pub open spec fn spaced(words: Seq<Seq<char>>) -> Seq<char>
    decreases words.len(),
{
    if words.len() == 0 {
        seq![]
    } else if words.len() == 1 {
        words[0]
    } else {
        spaced(words.drop_last()) + " "@ + words.last()
    }
}

impl InvocationSpec {
    /// The command line as it is echoed: the program, a space, and the
    /// arguments with a space between two of them.
    pub fn command_line(&self) -> (r: String)
        ensures
            r@ == self.program@ + " "@ + spaced(texts(self.args@)),
    {
        let mut r = String::from_str(self.program.as_str());
        r.append(" ");
        let ghost start = r@;
        let mut i: usize = 0;
        while i < self.args.len()
            invariant
                i <= self.args@.len(),
                start == self.program@ + " "@,
                r@ == start + spaced(texts(self.args@.subrange(0, i as int))),
            decreases self.args.len() - i,
        {
            let ghost done = texts(self.args@.subrange(0, i as int));
            let ghost grown = texts(self.args@.subrange(0, i + 1));
            assert(grown.drop_last() =~= done);
            if i > 0 {
                r.append(" ");
            }
            r.append(self.args[i].as_str());
            i = i + 1;
            assert(r@ =~= start + spaced(grown));
        }
        assert(self.args@.subrange(0, self.args@.len() as int) =~= self.args@);
        r
    }
}

/// How a process ended.
#[derive(Debug, Clone, Copy, PartialEq, Eq, Structural)]
pub enum ExitStatus {
    /// It exited with this code.
    Code(i32),
    /// A signal ended it before it could exit.
    Signal,
}

/// What a finished process left: its end and the output it was made to keep
/// (nothing where the output went to the terminal).
#[derive(Debug, Clone)]
pub struct InvocationOutcome {
    pub status: ExitStatus,
    pub stdout: Vec<u8>,
    pub stderr: Vec<u8>,
}

/// Why a command did not succeed.
#[derive(Debug, Clone, Copy, PartialEq, Eq, Structural)]
pub enum ExecutionError {
    /// The program could not be started.
    Spawn,
    /// The program exited with this code, which is not 0.
    Exit(i32),
    /// A signal ended the program.
    Signal,
}

/// The judgement on a finished command, with what is to be shown of it.
pub struct RunReport {
    pub result: Result<(), ExecutionError>,
    /// The captured standard output as a numbered block, where there is one to show.
    pub stdout_block: Option<String>,
    /// The captured standard error as a numbered block, where there is one to show.
    pub stderr_block: Option<String>,
    /// Whether the exit code is to be shown.
    pub show_exit_code: bool,
}

/// The text that bytes hold as UTF-8, each invalid sequence replaced.
pub uninterp spec fn lossy_text(b: Seq<u8>) -> Seq<char>;

/// Relies on String::from_utf8_lossy: the text the bytes encode, with a
/// replacement character for each invalid sequence; no bytes, no text.
#[verifier::external_body]
fn decode_lossy(b: &Vec<u8>) -> (r: String)
    ensures
        r@ == lossy_text(b@),
        b@.len() == 0 ==> r@.len() == 0,
{
    String::from_utf8_lossy(b.as_slice()).into_owned()
}

/// The block that shows a captured text: none for an empty one.
pub open spec fn block_of(text: Seq<char>) -> Option<Seq<char>> {
    if text.len() == 0 {
        None
    } else {
        Some(code_block_of(text))
    }
}

/// The view of an optional string.
pub open spec fn opt_text(s: Option<String>) -> Option<Seq<char>> {
    match s {
        Some(t) => Some(t@),
        None => None,
    }
}

/// The block that shows a captured text, lines numbered from 1; none where
/// nothing was captured.
pub fn captured_block(text: &str) -> (r: Option<String>)
    ensures
        opt_text(r) == block_of(text@),
{
    if text.unicode_len() == 0 {
        None
    } else {
        Some(code_block(text))
    }
}

/// What becomes of a command that ended so.
pub open spec fn run_result(status: ExitStatus) -> Result<(), ExecutionError> {
    match status {
        ExitStatus::Code(n) => if n == 0 {
            Ok(())
        } else {
            Err(ExecutionError::Exit(n))
        },
        ExitStatus::Signal => Err(ExecutionError::Signal),
    }
}

/// The report owed on a finished command: its result; the captured output
/// shown only where the command exited with a code other than 0 and something
/// was captured; the exit code shown only where it is not 0.
pub open spec fn report_fits(outcome: &InvocationOutcome, r: &RunReport) -> bool {
    &&& r.result == run_result(outcome.status)
    &&& match outcome.status {
        ExitStatus::Code(n) => if n == 0 {
            r.stdout_block is None && r.stderr_block is None && !r.show_exit_code
        } else {
            &&& opt_text(r.stdout_block) == block_of(lossy_text(outcome.stdout@))
            &&& opt_text(r.stderr_block) == block_of(lossy_text(outcome.stderr@))
            &&& outcome.stdout@.len() == 0 ==> r.stdout_block is None
            &&& outcome.stderr@.len() == 0 ==> r.stderr_block is None
            &&& r.show_exit_code
        },
        ExitStatus::Signal => r.stdout_block is None && r.stderr_block is None && !r.show_exit_code,
    }
}

/// Judges a finished command. Exit code 0 is success, with nothing shown of
/// its output. Any other code is a failure that shows the captured output
/// that is not empty. A signal is a failure of its own kind.
pub fn run_cmd(outcome: &InvocationOutcome) -> (r: RunReport)
    ensures
        report_fits(outcome, &r),
{
    match outcome.status {
        ExitStatus::Code(code) => {
            if code != 0 {
                let stdout = decode_lossy(&outcome.stdout);
                let stderr = decode_lossy(&outcome.stderr);
                RunReport {
                    result: Err(ExecutionError::Exit(code)),
                    stdout_block: captured_block(stdout.as_str()),
                    stderr_block: captured_block(stderr.as_str()),
                    show_exit_code: true,
                }
            } else {
                RunReport { result: Ok(()), stdout_block: None, stderr_block: None, show_exit_code: false }
            }
        },
        ExitStatus::Signal => RunReport {
            result: Err(ExecutionError::Signal),
            stdout_block: None,
            stderr_block: None,
            show_exit_code: false,
        },
    }
}

/// The line echoed before a command runs in verbose mode; none otherwise.
pub fn running_line(verbose: bool, spec: &InvocationSpec) -> (r: Option<String>)
    ensures
        verbose ==> r is Some && r->Some_0@ == "Running '"@ + spec.program@ + " "@ + spaced(
            texts(spec.args@),
        ) + "'"@,
        !verbose ==> r is None,
{
    if verbose {
        let mut line = String::from_str("Running '");
        line.append(spec.command_line().as_str());
        line.append("'");
        Some(line)
    } else {
        None
    }
}

/// What a dependency check has to say; it never stops the caller.
#[derive(Debug, Clone, Copy, PartialEq, Eq, Structural)]
pub enum DependencyReport {
    /// The program was found; `announce` where that is to be said.
    Found { announce: bool },
    /// The program is missing; the remedy is the Rust toolchain installer
    /// where `toolchain`, else the system's package manager.
    Missing { toolchain: bool },
}

/// The report on a program: found, or missing with the remedy that fits it.
pub open spec fn dependency_report(verbose: bool, prog: Seq<char>, started: bool) -> DependencyReport {
    if started {
        DependencyReport::Found { announce: verbose }
    } else {
        DependencyReport::Missing { toolchain: prog == "cargo"@ }
    }
}

/// What to say of a program that was, or could not be, started.
pub fn check_if_installed(verbose: bool, prog: &str, started: bool) -> (r: DependencyReport)
    ensures
        r == dependency_report(verbose, prog@, started),
{
    if started {
        DependencyReport::Found { announce: verbose }
    } else {
        DependencyReport::Missing { toolchain: same_text(prog, "cargo") }
    }
}

} // verus!
