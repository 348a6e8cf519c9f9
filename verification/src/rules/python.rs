//! Two failures around Python: a script that was named without its `.py`,
//! and a misspelt subcommand of `pip`.

use crate::pattern::{capture, captured};
use crate::rules::{nothing, only, Rule};
use crate::text::{
    contains, ends_with, has_infix, has_prefix, has_suffix, joined, listed_before, replace_word,
    starts_with, trim, trimmed, word_replaced,
};
use crate::types::{Command, CommandView, Correction, CorrectionView, plain_correction};
use vstd::prelude::*;

verus! {

/// The rule `python_execute`: a script that exists with the ending `.py` is
/// run under that name.
///
/// The rule does not look at the file system itself. It is made with the
/// names of the files that are known to exist; [`PythonExecute::candidate`]
/// gives the name to look for.
#[derive(Debug)]
pub struct PythonExecute {
    existing: Vec<String>,
}

/// The file whose existence decides: `script`, trimmed, with `.py` behind it.
/// There is none where the script ends in `.py` already.
pub open spec fn python_candidate(script: Seq<char>) -> Option<Seq<char>> {
    if has_suffix(trimmed(script), ".py"@) {
        None
    } else {
        Some(trimmed(script) + ".py"@)
    }
}

/// Whether `python_execute` matches a script, given the files that exist.
pub open spec fn python_execute_matches(existing: Seq<Seq<char>>, script: Seq<char>) -> bool {
    python_candidate(script) matches Some(file) && existing.contains(file)
}

/// The one correction of `python_execute`: `script` with `.py` behind it.
pub open spec fn python_execute_corrections(script: Seq<char>) -> Seq<CorrectionView> {
    seq![plain_correction(script + ".py"@, false, 100)]
}

impl PythonExecute {
    /// The files that the rule takes to exist.
    pub closed spec fn existing(&self) -> Seq<Seq<char>> {
        self.existing.deep_view()
    }

    /// The rule for a file system in which the files `existing` exist.
    pub fn new(existing: Vec<String>) -> (rule: Self)
        ensures
            rule.existing() == existing.deep_view(),
    {
        Self { existing }
    }

    /// The file whose existence decides whether the rule matches `script`.
    pub fn candidate(script: &str) -> (file: Option<String>)
        ensures
            file.deep_view() == python_candidate(script@),
    {
        let inner = trim(script);
        if ends_with(inner, ".py") {
            None
        } else {
            Some(joined(inner, ".py"))
        }
    }

    /// Whether the rule matches `script` where the files `existing` exist.
    pub fn recognises(existing: &Vec<String>, script: &str) -> (answer: bool)
        ensures
            answer == python_execute_matches(existing.deep_view(), script@),
    {
        match PythonExecute::candidate(script) {
            Some(file) => {
                assert(existing.deep_view().take(existing.len() as int) == existing.deep_view());
                listed_before(existing, existing.len(), file.as_str())
            },
            None => false,
        }
    }

    /// The correction for `script`.
    pub fn corrections_for(script: &str) -> (corrections: Vec<Correction>)
        ensures
            corrections.deep_view() == python_execute_corrections(script@),
    {
        only(Correction::new(joined(script, ".py"), false, 100))
    }
}

impl Rule for PythonExecute {
    open spec fn may_be_named(&self, name: Seq<char>) -> bool {
        name == "python_execute"@
    }

    open spec fn may_answer(&self, command: CommandView, answer: bool) -> bool {
        answer == python_execute_matches(self.existing(), command.script)
    }

    open spec fn may_propose(&self, command: CommandView, corrections: Seq<CorrectionView>) -> bool {
        corrections == python_execute_corrections(command.script)
    }

    fn matches(&self, command: &Command) -> (answer: bool) {
        PythonExecute::recognises(&self.existing, command.script.as_str())
    }

    fn generate_corrections(&self, command: &Command) -> (corrections: Vec<Correction>) {
        PythonExecute::corrections_for(command.script.as_str())
    }

    fn name(&self) -> (name: &str) {
        "python_execute"
    }
}

/// The rule `pip_unknown_command`: a misspelt subcommand of `pip` is
/// replaced by the one that `pip` suggests.
#[derive(Debug)]
pub struct PipUnknownCommand;

/// The regular expression that finds the suggestion in the output.
pub open spec fn meant_pattern() -> Seq<char> {
    "maybe you meant \"([^\"]+)\""@
}

/// The regular expression that finds the misspelt subcommand in the output.
pub open spec fn unknown_pattern() -> Seq<char> {
    "unknown command \"([^\"]+)\""@
}

/// Whether `pip_unknown_command` matches `command`.
pub open spec fn pip_unknown_command_matches(command: CommandView) -> bool {
    &&& has_prefix(command.script, "pip"@)
    &&& (has_infix(command.stderr, "unknown command"@) || has_infix(
        command.stderr,
        "no such option"@,
    ))
    &&& has_infix(command.stderr, "maybe you meant"@)
}

/// The corrections of `pip_unknown_command`, given the suggestion and the
/// misspelt subcommand that were found in the output: `script` with its
/// first word that equals the misspelt subcommand replaced by the
/// suggestion. There is none where either was not found.
pub open spec fn pip_unknown_command_corrections(
    script: Seq<char>,
    suggested: Option<Seq<char>>,
    misspelt: Option<Seq<char>>,
) -> Seq<CorrectionView> {
    match (suggested, misspelt) {
        (Some(suggestion), Some(typo)) => seq![
            plain_correction(word_replaced(script, typo, suggestion), false, 100),
        ],
        _ => seq![],
    }
}

impl PipUnknownCommand {
    /// Whether `script` and `stderr` show a subcommand that `pip` does not
    /// know and a suggestion for it.
    pub fn recognises(script: &str, stderr: &str) -> (answer: bool)
        ensures
            answer == (has_prefix(script@, "pip"@) && (has_infix(stderr@, "unknown command"@)
                || has_infix(stderr@, "no such option"@)) && has_infix(
                stderr@,
                "maybe you meant"@,
            )),
    {
        starts_with(script, "pip") && (contains(stderr, "unknown command") || contains(
            stderr,
            "no such option",
        )) && contains(stderr, "maybe you meant")
    }

    /// The corrections for `script`, given the suggestion and the misspelt
    /// subcommand that were found in the output.
    pub fn corrections_from(
        script: &str,
        suggested: Option<String>,
        misspelt: Option<String>,
    ) -> (corrections: Vec<Correction>)
        ensures
            corrections.deep_view() == pip_unknown_command_corrections(
                script@,
                suggested.deep_view(),
                misspelt.deep_view(),
            ),
    {
        match (suggested, misspelt) {
            (Some(suggestion), Some(typo)) => only(
                Correction::new(
                    replace_word(script, typo.as_str(), suggestion.as_str()),
                    false,
                    100,
                ),
            ),
            _ => nothing(),
        }
    }
}

impl Rule for PipUnknownCommand {
    open spec fn may_be_named(&self, name: Seq<char>) -> bool {
        name == "pip_unknown_command"@
    }

    open spec fn may_answer(&self, command: CommandView, answer: bool) -> bool {
        answer == pip_unknown_command_matches(command)
    }

    open spec fn may_propose(&self, command: CommandView, corrections: Seq<CorrectionView>) -> bool {
        corrections == pip_unknown_command_corrections(
            command.script,
            captured(meant_pattern(), command.stderr, 1),
            captured(unknown_pattern(), command.stderr, 1),
        )
    }

    fn matches(&self, command: &Command) -> (answer: bool) {
        PipUnknownCommand::recognises(command.script.as_str(), command.stderr.as_str())
    }

    fn generate_corrections(&self, command: &Command) -> (corrections: Vec<Correction>) {
        let suggested = capture("maybe you meant \"([^\"]+)\"", command.stderr.as_str(), 1);
        let misspelt = capture("unknown command \"([^\"]+)\"", command.stderr.as_str(), 1);
        PipUnknownCommand::corrections_from(command.script.as_str(), suggested, misspelt)
    }

    fn name(&self) -> (name: &str) {
        "pip_unknown_command"
    }
}

} // verus!
