//! A `grep` that was given a directory is run again with `-r`.

use crate::rules::{nothing, only, Rule};
use crate::shell::{arguments, arguments_of, join, shell_line};
use crate::text::{contains, equal, has_infix, lowercase, to_lowercase};
use crate::types::{Command, CommandView, Correction, CorrectionView, plain_correction};
use vstd::prelude::*;
use vstd::string::StringExecFns;

verus! {

/// The rule `grep_recursive`.
#[derive(Debug)]
pub struct GrepRecursive;

/// The arguments are those of a `grep`, `egrep` or `fgrep`, and the output,
/// in lowercase, says that a directory was met.
pub open spec fn grep_met_directory(
    words: Option<Seq<Seq<char>>>,
    lower_stderr: Seq<char>,
) -> bool {
    &&& words matches Some(words)
    &&& words.len() > 0
    &&& (words[0] == "grep"@ || words[0] == "egrep"@ || words[0] == "fgrep"@)
    &&& has_infix(lower_stderr, "is a directory"@)
}

/// Whether the rule matches `command`.
pub open spec fn grep_recursive_matches(command: CommandView) -> bool {
    grep_met_directory(arguments_of(command.script), lowercase(command.stderr))
}

/// The corrections of the rule, given the arguments of the script: one, with
/// `-r` as the second argument, where there are arguments at all.
pub open spec fn grep_recursive_corrections(words: Option<Seq<Seq<char>>>) -> Seq<
    CorrectionView,
> {
    match words {
        Some(words) if words.len() > 0 => seq![
            plain_correction(shell_line(words.insert(1, "-r"@)), false, 90),
        ],
        _ => seq![],
    }
}

impl GrepRecursive {
    /// Whether the arguments of a script and its `stderr`, brought to
    /// lowercase, show a `grep` that met a directory.
    pub fn recognises(words: &Option<Vec<String>>, lower_stderr: &str) -> (answer: bool)
        ensures
            answer == grep_met_directory(words.deep_view(), lower_stderr@),
    {
        match words {
            Some(words) => {
                if words.len() == 0 {
                    return false;
                }
                assert(words.deep_view()[0] == words@[0]@);
                let program = words[0].as_str();
                let is_grep = equal(program, "grep") || equal(program, "egrep") || equal(
                    program,
                    "fgrep",
                );
                is_grep && contains(lower_stderr, "is a directory")
            },
            None => false,
        }
    }

    /// The corrections, given the arguments of the script.
    pub fn corrections_from(words: Option<Vec<String>>) -> (corrections: Vec<Correction>)
        ensures
            corrections.deep_view() == grep_recursive_corrections(words.deep_view()),
    {
        match words {
            Some(words) => {
                if words.len() == 0 {
                    return nothing();
                }
                let ghost before = words.deep_view();
                let mut corrected = words;
                let flag = String::from_str("-r");
                corrected.insert(1, flag);
                assert(corrected.deep_view() == before.insert(1, "-r"@));
                only(Correction::new(join(&corrected), false, 90))
            },
            None => nothing(),
        }
    }
}

impl Rule for GrepRecursive {
    open spec fn may_be_named(&self, name: Seq<char>) -> bool {
        name == "grep_recursive"@
    }

    open spec fn may_answer(&self, command: CommandView, answer: bool) -> bool {
        answer == grep_recursive_matches(command)
    }

    open spec fn may_propose(&self, command: CommandView, corrections: Seq<CorrectionView>) -> bool {
        corrections == grep_recursive_corrections(arguments_of(command.script))
    }

    fn matches(&self, command: &Command) -> (answer: bool) {
        let words = arguments(command.script.as_str());
        let lower_stderr = to_lowercase(command.stderr.as_str());
        GrepRecursive::recognises(&words, lower_stderr.as_str())
    }

    fn generate_corrections(&self, command: &Command) -> (corrections: Vec<Correction>) {
        GrepRecursive::corrections_from(arguments(command.script.as_str()))
    }

    fn name(&self) -> (name: &str) {
        "grep_recursive"
    }
}

} // verus!
