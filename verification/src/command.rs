//! Calls of the external tools, as plain values: what to run, and what came
//! of it. The library decides; its user runs the processes.

use vstd::prelude::*;
use crate::text::texts_of;

verus! {

/// A program to run, with its arguments.
#[derive(Debug, Clone)]
pub struct Command {
    pub program: String,
    pub args: Vec<String>,
}

/// The mathematical model of a [`Command`].
pub struct CommandView {
    pub program: Seq<char>,
    pub args: Seq<Seq<char>>,
}

impl View for Command {
    type V = CommandView;

    open spec fn view(&self) -> CommandView {
        CommandView { program: self.program@, args: texts_of(self.args@) }
    }
}

/// What came of running a command to its end.
#[derive(Debug, Clone)]
pub enum RunOutcome {
    /// The process could not be started; `reason` is the system's message.
    SpawnFailed { reason: String },
    /// The process ran and ended; `stdout` is what it wrote to its standard
    /// output.
    Exited { success: bool, stdout: String },
}

/// Which copy of a tool was run: the one found by the locator, or the one
/// of the system, which is tried second.
#[derive(Debug, Clone, Copy, PartialEq, Eq, Structural)]
pub enum Attempt {
    Bundled,
    System,
}

/// What to do after an attempt to ask the encoder for its version.
#[derive(Debug)]
pub enum CheckStep {
    /// Run this command and come back with its outcome, as the system's attempt.
    Retry(Command),
    /// The answer: whether the encoder is available.
    Done(bool),
}

/// Whether the process ran and reported success.
pub open spec fn succeeded(outcome: RunOutcome) -> bool {
    match outcome {
        RunOutcome::Exited { success, .. } => success,
        RunOutcome::SpawnFailed { .. } => false,
    }
}

/// The command that asks `program` for its version.
pub open spec fn version_query(program: Seq<char>) -> CommandView {
    CommandView { program, args: seq!["-version"@] }
}

/// Whether the encoder is available, as far as one attempt shows: `None`
/// where the system's copy has to be asked next. The encoder is available
/// exactly where one of the two copies ran and reported success; one that
/// cannot be started is not available, which is no error.
pub open spec fn check_verdict(attempt: Attempt, outcome: RunOutcome) -> Option<bool> {
    match attempt {
        Attempt::Bundled => if succeeded(outcome) {
            Some(true)
        } else {
            None
        },
        Attempt::System => Some(succeeded(outcome)),
    }
}

/// The command that asks `program` for its version.
pub fn version_command(program: &str) -> (c: Command)
    ensures
        c@ == version_query(program@),
{
    let args = vec!["-version".to_owned()];
    assert(texts_of(args@) =~= seq!["-version"@]);
    Command { program: program.to_owned(), args }
}

/// Decides, from the outcome of a version query, whether the encoder is
/// available. The first attempt runs the located encoder: if it reports
/// success the encoder is available, else the system's `ffmpeg` is asked.
/// The second attempt decides: the encoder is available if it ran and
/// reported success, and not available if it failed or could not be started.
pub fn check_ffmpeg(attempt: Attempt, outcome: &RunOutcome) -> (step: CheckStep)
    ensures
        match step {
            CheckStep::Retry(c) => check_verdict(attempt, *outcome) is None && c@ == version_query(
                crate::paths::ffmpeg_name(),
            ),
            CheckStep::Done(available) => check_verdict(attempt, *outcome) == Some(available),
        },
{
    let success = match outcome {
        RunOutcome::Exited { success, .. } => *success,
        RunOutcome::SpawnFailed { .. } => false,
    };
    match attempt {
        Attempt::Bundled => {
            if success {
                CheckStep::Done(true)
            } else {
                CheckStep::Retry(version_command("ffmpeg"))
            }
        },
        Attempt::System => CheckStep::Done(success),
    }
}

/// The encoder is reported available exactly where the attempt at hand ran
/// and reported success; on the second attempt there is always an answer.
pub proof fn availability_is_success(attempt: Attempt, outcome: RunOutcome)
    ensures
        check_verdict(attempt, outcome) == Some(true) <==> succeeded(outcome),
        attempt == Attempt::System ==> check_verdict(attempt, outcome) is Some,
{
}

} // verus!
