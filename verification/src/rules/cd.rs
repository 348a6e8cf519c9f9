//! A `cd` into a directory that does not exist is preceded by the `mkdir`
//! that makes it.

use crate::rules::{nothing, only, Rule};
use crate::shell::{arguments, arguments_of, escape};
use crate::text::{
    contains, has_infix, has_prefix, joined, lowercase, starts_with, to_lowercase, trim, trimmed,
};
use crate::types::{Command, CommandView, Correction, CorrectionView, plain_correction};
use vstd::prelude::*;
use vstd::string::StringExecFns;

verus! {

/// The rule `cd_mkdir`.
#[derive(Debug)]
pub struct CdMkdir;

/// `script` is a `cd` and the output, in lowercase, says that its directory
/// is missing.
pub open spec fn cd_failed(script: Seq<char>, lower_stderr: Seq<char>) -> bool {
    &&& has_prefix(trimmed(script), "cd "@)
    &&& {
        ||| has_infix(lower_stderr, "no such file or directory"@)
        ||| has_infix(lower_stderr, "does not exist"@)
        ||| has_infix(lower_stderr, "can't cd to"@)
    }
}

/// Whether the rule matches `command`.
pub open spec fn cd_mkdir_matches(command: CommandView) -> bool {
    cd_failed(command.script, lowercase(command.stderr))
}

/// The directory that the script names: its second argument.
pub open spec fn cd_target(words: Option<Seq<Seq<char>>>) -> Option<Seq<char>> {
    match words {
        Some(words) if words.len() >= 2 => Some(words[1]),
        _ => None,
    }
}

/// The corrections of the rule, given the directory as it is quoted for the
/// shell: one, that makes the directory and then runs `script`. There is
/// none where the script names no directory.
pub open spec fn cd_mkdir_corrections(
    script: Seq<char>,
    quoted: Option<Seq<char>>,
) -> Seq<CorrectionView> {
    match quoted {
        Some(quoted) => seq![
            plain_correction("mkdir -p "@ + quoted + " && "@ + script, false, 90),
        ],
        None => seq![],
    }
}

impl CdMkdir {
    /// Whether `script` and its `stderr`, brought to lowercase, show a `cd`
    /// into a missing directory.
    pub fn recognises(script: &str, lower_stderr: &str) -> (answer: bool)
        ensures
            answer == cd_failed(script@, lower_stderr@),
    {
        starts_with(trim(script), "cd ") && (contains(lower_stderr, "no such file or directory")
            || contains(lower_stderr, "does not exist") || contains(lower_stderr, "can't cd to"))
    }

    /// The directory that a script with the arguments `words` names.
    pub fn target(words: &Option<Vec<String>>) -> (directory: Option<&String>)
        ensures
            directory.deep_view() == cd_target(words.deep_view()),
    {
        match words {
            Some(words) => {
                if words.len() >= 2 {
                    assert(words.deep_view()[1] == words@[1]@);
                    Some(&words[1])
                } else {
                    None
                }
            },
            None => None,
        }
    }

    /// The corrections for `script`, given its directory as it is quoted for
    /// the shell.
    pub fn corrections_from(script: &str, quoted: Option<String>) -> (corrections: Vec<Correction>)
        ensures
            corrections.deep_view() == cd_mkdir_corrections(script@, quoted.deep_view()),
    {
        match quoted {
            Some(quoted) => {
                let mut line = joined("mkdir -p ", quoted.as_str());
                line.append(" && ");
                line.append(script);
                only(Correction::new(line, false, 90))
            },
            None => nothing(),
        }
    }
}

impl Rule for CdMkdir {
    open spec fn may_be_named(&self, name: Seq<char>) -> bool {
        name == "cd_mkdir"@
    }

    open spec fn may_answer(&self, command: CommandView, answer: bool) -> bool {
        answer == cd_mkdir_matches(command)
    }

    /// How the directory is quoted is left to the platform, so the one
    /// correction is known up to the quoted directory.
    open spec fn may_propose(&self, command: CommandView, corrections: Seq<CorrectionView>) -> bool {
        match cd_target(arguments_of(command.script)) {
            Some(_) => exists|quoted: Seq<char>|
                corrections == cd_mkdir_corrections(command.script, Some(quoted)),
            None => corrections == cd_mkdir_corrections(command.script, None),
        }
    }

    fn matches(&self, command: &Command) -> (answer: bool) {
        let lower_stderr = to_lowercase(command.stderr.as_str());
        CdMkdir::recognises(command.script.as_str(), lower_stderr.as_str())
    }

    fn generate_corrections(&self, command: &Command) -> (corrections: Vec<Correction>) {
        let words = arguments(command.script.as_str());
        let quoted = match CdMkdir::target(&words) {
            Some(directory) => Some(escape(directory.as_str())),
            None => None,
        };
        CdMkdir::corrections_from(command.script.as_str(), quoted)
    }

    fn name(&self) -> (name: &str) {
        "cd_mkdir"
    }
}

} // verus!
