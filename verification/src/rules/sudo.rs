//! A command that was refused for want of permission is run again through
//! `sudo`.

use crate::rules::{only, Rule};
use crate::text::{
    contains, has_infix, has_prefix, joined, lowercase, starts_with, to_lowercase, trim, trimmed,
};
use crate::types::{Command, CommandView, Correction, CorrectionView, plain_correction};
use vstd::prelude::*;

verus! {

/// The rule `sudo`.
#[derive(Debug)]
pub struct Sudo;

/// The output, in lowercase, says that permission was missing, and `script`
/// does not begin with `sudo` already.
pub open spec fn lacks_permission(
    script: Seq<char>,
    lower_stdout: Seq<char>,
    lower_stderr: Seq<char>,
) -> bool {
    &&& {
        ||| has_infix(lower_stderr, "permission denied"@)
        ||| has_infix(lower_stderr, "eacces"@)
        ||| has_infix(lower_stdout, "permission denied"@)
        ||| has_infix(lower_stdout, "eacces"@)
        ||| has_infix(lower_stderr, "requires root privileges"@)
        ||| has_infix(lower_stderr, "must be run as root"@)
    }
    &&& !has_prefix(trimmed(script), "sudo"@)
}

/// Whether the rule matches `command`.
pub open spec fn sudo_matches(command: CommandView) -> bool {
    lacks_permission(command.script, lowercase(command.stdout), lowercase(command.stderr))
}

/// The one correction of the rule: `script` behind `sudo`.
pub open spec fn sudo_corrections(script: Seq<char>) -> Seq<CorrectionView> {
    seq![plain_correction("sudo "@ + script, false, 100)]
}

impl Sudo {
    /// Whether output that was brought to lowercase says that permission was
    /// missing for `script`.
    pub fn recognises(script: &str, lower_stdout: &str, lower_stderr: &str) -> (answer: bool)
        ensures
            answer == lacks_permission(script@, lower_stdout@, lower_stderr@),
    {
        let refused = contains(lower_stderr, "permission denied") || contains(
            lower_stderr,
            "eacces",
        ) || contains(lower_stdout, "permission denied") || contains(lower_stdout, "eacces")
            || contains(lower_stderr, "requires root privileges") || contains(
            lower_stderr,
            "must be run as root",
        );
        refused && !starts_with(trim(script), "sudo")
    }

    /// The correction for `script`.
    pub fn corrections_for(script: &str) -> (corrections: Vec<Correction>)
        ensures
            corrections.deep_view() == sudo_corrections(script@),
    {
        only(Correction::new(joined("sudo ", script), false, 100))
    }
}

impl Rule for Sudo {
    open spec fn may_be_named(&self, name: Seq<char>) -> bool {
        name == "sudo"@
    }

    open spec fn may_answer(&self, command: CommandView, answer: bool) -> bool {
        answer == sudo_matches(command)
    }

    open spec fn may_propose(&self, command: CommandView, corrections: Seq<CorrectionView>) -> bool {
        corrections == sudo_corrections(command.script)
    }

    fn matches(&self, command: &Command) -> (answer: bool) {
        let lower_stderr = to_lowercase(command.stderr.as_str());
        let lower_stdout = to_lowercase(command.stdout.as_str());
        Sudo::recognises(command.script.as_str(), lower_stdout.as_str(), lower_stderr.as_str())
    }

    fn generate_corrections(&self, command: &Command) -> (corrections: Vec<Correction>) {
        Sudo::corrections_for(command.script.as_str())
    }

    fn name(&self) -> (name: &str) {
        "sudo"
    }
}

} // verus!
