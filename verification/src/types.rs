//! The values that travel between the caller, the rules and the engine.

use vstd::prelude::*;

verus! {

/// A shell invocation that failed, with what it printed.
#[derive(Debug, Clone)]
pub struct Command {
    /// The text that was executed.
    pub script: String,
    /// What the command wrote to standard output.
    pub stdout: String,
    /// What the command wrote to standard error.
    pub stderr: String,
}

/// The text of a [`Command`], field by field.
pub struct CommandView {
    pub script: Seq<char>,
    pub stdout: Seq<char>,
    pub stderr: Seq<char>,
}

impl View for Command {
    type V = CommandView;

    open spec fn view(&self) -> CommandView {
        CommandView { script: self.script@, stdout: self.stdout@, stderr: self.stderr@ }
    }
}

impl DeepView for Command {
    type V = CommandView;

    open spec fn deep_view(&self) -> CommandView {
        self@
    }
}

impl Command {
    pub fn new(script: String, stdout: String, stderr: String) -> (command: Self)
        ensures
            command.script == script,
            command.stdout == stdout,
            command.stderr == stderr,
            command@ == (CommandView { script: script@, stdout: stdout@, stderr: stderr@ }),
    {
        Self { script, stdout, stderr }
    }
}

/// One proposed replacement for a failed command.
#[derive(Debug, Clone)]
pub struct Correction {
    /// The command line to offer and, if accepted, to run.
    pub command: String,
    /// Whether running `command` does more than the failed command meant to do.
    pub side_effect: bool,
    /// Rank among competing corrections; the higher value is offered first.
    pub priority: usize,
    /// An explanation to show before the correction is run.
    pub confirmation_text: Option<String>,
}

/// The content of a [`Correction`], with its texts as sequences of characters.
pub struct CorrectionView {
    pub command: Seq<char>,
    pub side_effect: bool,
    pub priority: usize,
    pub confirmation_text: Option<Seq<char>>,
}

impl View for Correction {
    type V = CorrectionView;

    open spec fn view(&self) -> CorrectionView {
        CorrectionView {
            command: self.command@,
            side_effect: self.side_effect,
            priority: self.priority,
            confirmation_text: match self.confirmation_text {
                Some(text) => Some(text@),
                None => None,
            },
        }
    }
}

impl DeepView for Correction {
    type V = CorrectionView;

    open spec fn deep_view(&self) -> CorrectionView {
        self@
    }
}

/// The correction that proposes `command` without an explanation.
pub open spec fn plain_correction(
    command: Seq<char>,
    side_effect: bool,
    priority: usize,
) -> CorrectionView {
    CorrectionView { command, side_effect, priority, confirmation_text: None }
}

impl Correction {
    pub fn new(command: String, side_effect: bool, priority: usize) -> (correction: Self)
        ensures
            correction.command == command,
            correction@ == plain_correction(command@, side_effect, priority),
    {
        Self { command, side_effect, priority, confirmation_text: None }
    }
}

} // verus!
