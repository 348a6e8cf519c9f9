//! What every correction rule offers, and the rules that come with the library.

use crate::types::{Command, CommandView, Correction, CorrectionView};
use std::sync::Arc;
use vstd::prelude::*;

pub mod cargo;
pub mod cd;
pub mod generic;
pub mod git;
pub mod grep;
pub mod mkdir;
pub mod python;
pub mod sudo;

verus! {

/// A strategy that recognises one kind of failure and proposes corrections
/// for it.
///
/// A rule may look at more than the command (at files, at a script it
/// carries), so two calls on one command need not agree. The contract
/// therefore says what a call *may* give: `may_be_named` for `name`,
/// `may_answer` for `matches` and `may_propose` for `generate_corrections`.
/// A rule that states none of the three promises nothing; a rule that depends
/// on the command alone admits exactly one result for each.
pub trait Rule: Send + Sync {
    /// Whether the method `name` may give the text `name`.
    open spec fn may_be_named(&self, name: Seq<char>) -> bool {
        true
    }

    /// Whether the method `matches` may give `answer` on `command`.
    open spec fn may_answer(&self, command: CommandView, answer: bool) -> bool {
        true
    }

    /// Whether the method `generate_corrections` may give `corrections` on
    /// `command`.
    open spec fn may_propose(&self, command: CommandView, corrections: Seq<CorrectionView>) -> bool {
        true
    }

    /// Whether the rule recognises the failure of `command`.
    fn matches(&self, command: &Command) -> (answer: bool)
        ensures
            self.may_answer(command@, answer),
    ;

    /// The corrections that the rule proposes for `command`. It is asked for
    /// them only on a command that it can match.
    fn generate_corrections(&self, command: &Command) -> (corrections: Vec<Correction>)
        requires
            self.may_answer(command@, true),
        ensures
            self.may_propose(command@, corrections.deep_view()),
    ;

    /// The name by which a configuration refers to the rule.
    fn name(&self) -> (name: &str)
        ensures
            self.may_be_named(name@),
    ;
}

/// The rule has one name only.
pub open spec fn has_stable_name<R: Rule + ?Sized>(rule: &R) -> bool {
    forall|first: Seq<char>, second: Seq<char>|
        rule.may_be_named(first) && rule.may_be_named(second) ==> first == second
}

/// `rule` depends on `command` alone: it gives one answer there and, where
/// it matches, one list of proposals.
pub open spec fn determined<R: Rule>(rule: R, command: CommandView) -> bool {
    &&& !(rule.may_answer(command, true) && rule.may_answer(command, false))
    &&& forall|first: Seq<CorrectionView>, second: Seq<CorrectionView>|
        rule.may_propose(command, first) && rule.may_propose(command, second) ==> first == second
}

/// The rules that come with the library have one name each, and all of them
/// but two depend on the command alone: `cd_mkdir` leaves the quoting of its
/// directory to the platform, and a scripted rule does what its script does.
pub proof fn lemma_built_in_rules_determined(
    command: CommandView,
    unknown_command: generic::UnknownCommand,
    python_execute: python::PythonExecute,
)
    ensures
        determined(cargo::CargoRule, command) && has_stable_name(&cargo::CargoRule),
        determined(git::GitCheckout, command) && has_stable_name(&git::GitCheckout),
        determined(git::GitPush, command) && has_stable_name(&git::GitPush),
        determined(git::GitNoCommand, command) && has_stable_name(&git::GitNoCommand),
        determined(grep::GrepRecursive, command) && has_stable_name(&grep::GrepRecursive),
        determined(mkdir::MkdirP, command) && has_stable_name(&mkdir::MkdirP),
        determined(python::PipUnknownCommand, command) && has_stable_name(
            &python::PipUnknownCommand,
        ),
        determined(sudo::Sudo, command) && has_stable_name(&sudo::Sudo),
        determined(unknown_command, command) && has_stable_name(&unknown_command),
        determined(python_execute, command) && has_stable_name(&python_execute),
        has_stable_name(&cd::CdMkdir),
{
}

/// No correction.
pub(crate) fn nothing() -> (corrections: Vec<Correction>)
    ensures
        corrections.deep_view() == Seq::<CorrectionView>::empty(),
{
    let corrections: Vec<Correction> = Vec::new();
    assert(corrections.deep_view() == Seq::<CorrectionView>::empty());
    corrections
}

/// `correction` and no other.
pub(crate) fn only(correction: Correction) -> (corrections: Vec<Correction>)
    ensures
        corrections.deep_view() == seq![correction@],
{
    let mut corrections: Vec<Correction> = Vec::new();
    corrections.push(correction);
    assert(corrections.deep_view() == seq![correction@]);
    corrections
}

/// A shared rule behaves as the rule it points to.
impl<R: Rule + ?Sized> Rule for Arc<R> {
    open spec fn may_be_named(&self, name: Seq<char>) -> bool {
        (**self).may_be_named(name)
    }

    open spec fn may_answer(&self, command: CommandView, answer: bool) -> bool {
        (**self).may_answer(command, answer)
    }

    open spec fn may_propose(&self, command: CommandView, corrections: Seq<CorrectionView>) -> bool {
        (**self).may_propose(command, corrections)
    }

    fn matches(&self, command: &Command) -> (answer: bool) {
        (**self).matches(command)
    }

    fn generate_corrections(&self, command: &Command) -> (corrections: Vec<Correction>) {
        (**self).generate_corrections(command)
    }

    fn name(&self) -> (name: &str) {
        (**self).name()
    }
}

} // verus!
