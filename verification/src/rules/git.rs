//! Three failures of `git`: a checkout of a branch that does not exist, a
//! push without an upstream branch, and a misspelt subcommand.

use crate::pattern::{capture, captured};
use crate::rules::{nothing, only, Rule};
use crate::text::{
    contains, has_infix, has_prefix, replace_word, split_whitespace, starts_with, trim, trimmed,
    word_replaced, words_of,
};
use crate::types::{Command, CommandView, Correction, CorrectionView, plain_correction};
use vstd::prelude::*;

verus! {

/// The rule `git_checkout`: the branch that could not be checked out is
/// created.
#[derive(Debug)]
pub struct GitCheckout;

/// Whether `git_checkout` matches `command`.
pub open spec fn git_checkout_matches(command: CommandView) -> bool {
    &&& has_prefix(command.script, "git"@)
    &&& has_infix(command.stderr, "did not match any file(s) known to git"@)
}

/// The corrections of `git_checkout`: where `script` mentions `checkout` and
/// has no ` -b` yet, `script` with `-b` put behind its first word `checkout`.
/// Creating a branch is a side effect.
pub open spec fn git_checkout_corrections(script: Seq<char>) -> Seq<CorrectionView> {
    if has_infix(script, "checkout"@) && !has_infix(script, " -b"@) {
        seq![plain_correction(word_replaced(script, "checkout"@, "checkout -b"@), true, 80)]
    } else {
        seq![]
    }
}

impl GitCheckout {
    /// Whether `script` and `stderr` show a checkout of an unknown branch.
    pub fn recognises(script: &str, stderr: &str) -> (answer: bool)
        ensures
            answer == (has_prefix(script@, "git"@) && has_infix(
                stderr@,
                "did not match any file(s) known to git"@,
            )),
    {
        starts_with(script, "git") && contains(stderr, "did not match any file(s) known to git")
    }

    /// The corrections for `script`.
    pub fn corrections_for(script: &str) -> (corrections: Vec<Correction>)
        ensures
            corrections.deep_view() == git_checkout_corrections(script@),
    {
        if contains(script, "checkout") && !contains(script, " -b") {
            only(Correction::new(replace_word(script, "checkout", "checkout -b"), true, 80))
        } else {
            nothing()
        }
    }
}

impl Rule for GitCheckout {
    open spec fn may_be_named(&self, name: Seq<char>) -> bool {
        name == "git_checkout"@
    }

    open spec fn may_answer(&self, command: CommandView, answer: bool) -> bool {
        answer == git_checkout_matches(command)
    }

    open spec fn may_propose(&self, command: CommandView, corrections: Seq<CorrectionView>) -> bool {
        corrections == git_checkout_corrections(command.script)
    }

    fn matches(&self, command: &Command) -> (answer: bool) {
        GitCheckout::recognises(command.script.as_str(), command.stderr.as_str())
    }

    fn generate_corrections(&self, command: &Command) -> (corrections: Vec<Correction>) {
        GitCheckout::corrections_for(command.script.as_str())
    }

    fn name(&self) -> (name: &str) {
        "git_checkout"
    }
}

/// The rule `git_push`: the push is repeated as `git` itself suggests it.
#[derive(Debug)]
pub struct GitPush;

/// The regular expression that finds the suggested push in the output.
pub open spec fn push_pattern() -> Seq<char> {
    "git push --set-upstream \\S+ \\S+"@
}

/// Whether `git_push` matches `command`.
pub open spec fn git_push_matches(command: CommandView) -> bool {
    &&& has_prefix(command.script, "git push"@)
    &&& has_infix(command.stderr, "has no upstream branch"@)
    &&& has_infix(command.stderr, "git push --set-upstream"@)
}

/// The corrections of `git_push`, given the command line that was found in
/// the output: that command line.
pub open spec fn git_push_corrections(suggested: Option<Seq<char>>) -> Seq<CorrectionView> {
    match suggested {
        Some(line) => seq![plain_correction(line, false, 100)],
        None => seq![],
    }
}

impl GitPush {
    /// Whether `script` and `stderr` show a push without an upstream branch.
    pub fn recognises(script: &str, stderr: &str) -> (answer: bool)
        ensures
            answer == (has_prefix(script@, "git push"@) && has_infix(
                stderr@,
                "has no upstream branch"@,
            ) && has_infix(stderr@, "git push --set-upstream"@)),
    {
        starts_with(script, "git push") && contains(stderr, "has no upstream branch") && contains(
            stderr,
            "git push --set-upstream",
        )
    }

    /// The corrections, given the command line that was found in the output.
    pub fn corrections_from(suggested: Option<String>) -> (corrections: Vec<Correction>)
        ensures
            corrections.deep_view() == git_push_corrections(suggested.deep_view()),
    {
        match suggested {
            Some(line) => only(Correction::new(line, false, 100)),
            None => nothing(),
        }
    }
}

impl Rule for GitPush {
    open spec fn may_be_named(&self, name: Seq<char>) -> bool {
        name == "git_push"@
    }

    open spec fn may_answer(&self, command: CommandView, answer: bool) -> bool {
        answer == git_push_matches(command)
    }

    open spec fn may_propose(&self, command: CommandView, corrections: Seq<CorrectionView>) -> bool {
        corrections == git_push_corrections(captured(push_pattern(), command.stderr, 0))
    }

    fn matches(&self, command: &Command) -> (answer: bool) {
        GitPush::recognises(command.script.as_str(), command.stderr.as_str())
    }

    fn generate_corrections(&self, command: &Command) -> (corrections: Vec<Correction>) {
        let suggested = capture("git push --set-upstream \\S+ \\S+", command.stderr.as_str(), 0);
        GitPush::corrections_from(suggested)
    }

    fn name(&self) -> (name: &str) {
        "git_push"
    }
}

/// The rule `git_no_command`: a misspelt subcommand is replaced by the one
/// that `git` suggests.
#[derive(Debug)]
pub struct GitNoCommand;

/// The regular expression that finds the suggested subcommand in the output.
pub open spec fn subcommand_pattern() -> Seq<char> {
    "Did you mean this\\?\\n\\s*(.*)"@
}

/// Whether `git_no_command` matches `command`.
pub open spec fn git_no_command_matches(command: CommandView) -> bool {
    &&& has_prefix(command.script, "git"@)
    &&& has_infix(command.stderr, "is not a git command"@)
    &&& has_infix(command.stderr, "Did you mean this?"@)
}

/// The corrections of `git_no_command`, given the suggestion that was found
/// in the output: `script` with the first word that equals its second word
/// replaced by the suggestion, trimmed. There is none without a suggestion
/// or where `script` has no second word.
pub open spec fn git_no_command_corrections(
    script: Seq<char>,
    suggested: Option<Seq<char>>,
) -> Seq<CorrectionView> {
    match suggested {
        Some(suggestion) if words_of(script).len() >= 2 => seq![
            plain_correction(
                word_replaced(script, words_of(script)[1], trimmed(suggestion)),
                false,
                100,
            ),
        ],
        _ => seq![],
    }
}

impl GitNoCommand {
    /// Whether `script` and `stderr` show a subcommand that `git` does not
    /// know and a suggestion for it.
    pub fn recognises(script: &str, stderr: &str) -> (answer: bool)
        ensures
            answer == (has_prefix(script@, "git"@) && has_infix(stderr@, "is not a git command"@)
                && has_infix(stderr@, "Did you mean this?"@)),
    {
        starts_with(script, "git") && contains(stderr, "is not a git command") && contains(
            stderr,
            "Did you mean this?",
        )
    }

    /// The corrections for `script`, given the suggestion that was found in
    /// the output.
    pub fn corrections_from(script: &str, suggested: Option<String>) -> (corrections: Vec<
        Correction,
    >)
        ensures
            corrections.deep_view() == git_no_command_corrections(script@, suggested.deep_view()),
    {
        match suggested {
            Some(suggestion) => {
                let words = split_whitespace(script);
                if words.len() >= 2 {
                    assert(words.deep_view()[1] == words@[1]@);
                    only(
                        Correction::new(
                            replace_word(script, words[1].as_str(), trim(suggestion.as_str())),
                            false,
                            100,
                        ),
                    )
                } else {
                    nothing()
                }
            },
            None => nothing(),
        }
    }
}

impl Rule for GitNoCommand {
    open spec fn may_be_named(&self, name: Seq<char>) -> bool {
        name == "git_no_command"@
    }

    open spec fn may_answer(&self, command: CommandView, answer: bool) -> bool {
        answer == git_no_command_matches(command)
    }

    open spec fn may_propose(&self, command: CommandView, corrections: Seq<CorrectionView>) -> bool {
        corrections == git_no_command_corrections(
            command.script,
            captured(subcommand_pattern(), command.stderr, 1),
        )
    }

    fn matches(&self, command: &Command) -> (answer: bool) {
        GitNoCommand::recognises(command.script.as_str(), command.stderr.as_str())
    }

    fn generate_corrections(&self, command: &Command) -> (corrections: Vec<Correction>) {
        let suggested = capture("Did you mean this\\?\\n\\s*(.*)", command.stderr.as_str(), 1);
        GitNoCommand::corrections_from(command.script.as_str(), suggested)
    }

    fn name(&self) -> (name: &str) {
        "git_no_command"
    }
}

} // verus!
