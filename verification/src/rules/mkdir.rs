//! A `mkdir` that failed for want of a parent directory is run again with
//! `-p`.

use crate::rules::{nothing, only, Rule};
use crate::shell::{arguments, arguments_of, join, shell_line};
use crate::text::{contains, equal, has_infix};
use crate::types::{Command, CommandView, Correction, CorrectionView, plain_correction};
use vstd::prelude::*;
use vstd::string::StringExecFns;

verus! {

/// The rule `mkdir_p`.
#[derive(Debug)]
pub struct MkdirP;

/// The arguments are those of a `mkdir`, and `stderr` says that a directory
/// was missing.
pub open spec fn mkdir_failed(words: Option<Seq<Seq<char>>>, stderr: Seq<char>) -> bool {
    &&& words matches Some(words)
    &&& words.len() > 0
    &&& words[0] == "mkdir"@
    &&& has_infix(stderr, "No such file or directory"@)
}

/// Whether the rule matches `command`.
pub open spec fn mkdir_p_matches(command: CommandView) -> bool {
    mkdir_failed(arguments_of(command.script), command.stderr)
}

/// The arguments of the corrected command: `mkdir`, `-p`, and what followed
/// the first of `words`.
pub open spec fn with_parents(words: Seq<Seq<char>>) -> Seq<Seq<char>> {
    if words.len() > 0 {
        seq!["mkdir"@, "-p"@] + words.skip(1)
    } else {
        seq!["mkdir"@, "-p"@]
    }
}

/// The corrections of the rule, given the arguments of the script: one, made
/// of `with_parents`, where there are arguments at all.
pub open spec fn mkdir_p_corrections(words: Option<Seq<Seq<char>>>) -> Seq<CorrectionView> {
    match words {
        Some(words) if words.len() > 0 => seq![
            plain_correction(shell_line(with_parents(words)), false, 90),
        ],
        _ => seq![],
    }
}

impl MkdirP {
    /// Whether the arguments of a script and its `stderr` show a `mkdir`
    /// that missed a directory.
    pub fn recognises(words: &Option<Vec<String>>, stderr: &str) -> (answer: bool)
        ensures
            answer == mkdir_failed(words.deep_view(), stderr@),
    {
        match words {
            Some(words) => {
                if words.len() == 0 {
                    return false;
                }
                assert(words.deep_view()[0] == words@[0]@);
                equal(words[0].as_str(), "mkdir") && contains(stderr, "No such file or directory")
            },
            None => false,
        }
    }

    /// The arguments of the corrected command.
    pub fn corrected_arguments(words: &Vec<String>) -> (corrected: Vec<String>)
        ensures
            corrected.deep_view() == with_parents(words.deep_view()),
    {
        let mut corrected: Vec<String> = Vec::new();
        corrected.push(String::from_str("mkdir"));
        corrected.push(String::from_str("-p"));
        assert(corrected.deep_view() == seq!["mkdir"@, "-p"@]);
        if words.len() == 0 {
            return corrected;
        }
        let mut i: usize = 1;
        assert(corrected.deep_view() == seq!["mkdir"@, "-p"@] + words.deep_view().subrange(1, 1));
        while i < words.len()
            invariant
                1 <= i <= words.len(),
                corrected.deep_view() == seq!["mkdir"@, "-p"@] + words.deep_view().subrange(
                    1,
                    i as int,
                ),
            decreases words.len() - i,
        {
            let ghost before = corrected.deep_view();
            corrected.push(words[i].clone());
            assert(corrected.deep_view() == before.push(words@[i as int]@));
            assert(words.deep_view().subrange(1, i + 1) == words.deep_view().subrange(
                1,
                i as int,
            ).push(words@[i as int]@));
            i = i + 1;
        }
        assert(words.deep_view().subrange(1, i as int) == words.deep_view().skip(1));
        corrected
    }

    /// The corrections, given the arguments of the script.
    pub fn corrections_from(words: Option<Vec<String>>) -> (corrections: Vec<Correction>)
        ensures
            corrections.deep_view() == mkdir_p_corrections(words.deep_view()),
    {
        match words {
            Some(words) => {
                if words.len() == 0 {
                    return nothing();
                }
                let corrected = MkdirP::corrected_arguments(&words);
                only(Correction::new(join(&corrected), false, 90))
            },
            None => nothing(),
        }
    }
}

impl Rule for MkdirP {
    open spec fn may_be_named(&self, name: Seq<char>) -> bool {
        name == "mkdir_p"@
    }

    open spec fn may_answer(&self, command: CommandView, answer: bool) -> bool {
        answer == mkdir_p_matches(command)
    }

    open spec fn may_propose(&self, command: CommandView, corrections: Seq<CorrectionView>) -> bool {
        corrections == mkdir_p_corrections(arguments_of(command.script))
    }

    fn matches(&self, command: &Command) -> (answer: bool) {
        let words = arguments(command.script.as_str());
        MkdirP::recognises(&words, command.stderr.as_str())
    }

    fn generate_corrections(&self, command: &Command) -> (corrections: Vec<Correction>) {
        MkdirP::corrections_from(arguments(command.script.as_str()))
    }

    fn name(&self) -> (name: &str) {
        "mkdir_p"
    }
}

} // verus!
