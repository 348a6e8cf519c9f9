//! A misspelt subcommand of `cargo` is replaced by what `cargo` suggests.

use crate::pattern::{capture, captured};
use crate::rules::{nothing, Rule};
use crate::text::{
    contains, has_infix, has_prefix, pieces_of, replace_word, split_on, split_whitespace,
    starts_with, trim, trimmed, word_replaced, words_of,
};
use crate::types::{Command, CommandView, Correction, CorrectionView, plain_correction};
use vstd::prelude::*;
use vstd::string::StringExecFns;

verus! {

/// The rule `cargo`.
#[derive(Debug)]
pub struct CargoRule;

/// The regular expression that finds the suggestions of older versions of
/// `cargo`.
pub open spec fn question_pattern() -> Seq<char> {
    "Did you mean (.*)\\?"@
}

/// The regular expression that finds the suggestion of newer versions of
/// `cargo`.
pub open spec fn similar_name_pattern() -> Seq<char> {
    "similar name exists: `(.*)`"@
}

/// Whether the rule matches `command`.
pub open spec fn cargo_matches(command: CommandView) -> bool {
    &&& has_prefix(command.script, "cargo"@)
    &&& {
        ||| has_infix(command.stderr, "Did you mean"@)
        ||| has_infix(command.stderr, "no such command"@)
        ||| has_infix(command.stderr, "similar name exists"@)
    }
}

/// The subcommands that the output suggests: the lines of what the first
/// expression found, then what the second found, each trimmed.
pub open spec fn cargo_suggestions(
    asked: Option<Seq<char>>,
    similar: Option<Seq<char>>,
) -> Seq<Seq<char>> {
    let lines = match asked {
        Some(found) => pieces_of(found, '\n'),
        None => seq![],
    };
    let first = Seq::new(lines.len(), |i: int| trimmed(lines[i]));
    match similar {
        Some(found) => first.push(trimmed(found)),
        None => first,
    }
}

/// The corrections of the rule, given what the two expressions found in the
/// output: for each suggestion, `script` with the first word that equals its
/// second word replaced by the suggestion. There is none where `script` has
/// no second word.
pub open spec fn cargo_corrections(
    script: Seq<char>,
    asked: Option<Seq<char>>,
    similar: Option<Seq<char>>,
) -> Seq<CorrectionView> {
    let suggestions = cargo_suggestions(asked, similar);
    let words = words_of(script);
    if words.len() >= 2 {
        Seq::new(
            suggestions.len(),
            |i: int| plain_correction(word_replaced(script, words[1], suggestions[i]), false, 100),
        )
    } else {
        seq![]
    }
}

impl CargoRule {
    /// Whether `script` and `stderr` show a subcommand that `cargo` does not
    /// know.
    pub fn recognises(script: &str, stderr: &str) -> (answer: bool)
        ensures
            answer == (has_prefix(script@, "cargo"@) && (has_infix(stderr@, "Did you mean"@)
                || has_infix(stderr@, "no such command"@) || has_infix(
                stderr@,
                "similar name exists"@,
            ))),
    {
        starts_with(script, "cargo") && (contains(stderr, "Did you mean") || contains(
            stderr,
            "no such command",
        ) || contains(stderr, "similar name exists"))
    }

    /// The subcommands that the output suggests, given what the two
    /// expressions found in it.
    pub fn suggestions_from(asked: &Option<String>, similar: &Option<String>) -> (suggestions: Vec<
        String,
    >)
        ensures
            suggestions.deep_view() == cargo_suggestions(asked.deep_view(), similar.deep_view()),
    {
        let mut suggestions: Vec<String> = Vec::new();
        if let Some(found) = asked {
            let lines = split_on(found.as_str(), '\n');
            let mut i: usize = 0;
            while i < lines.len()
                invariant
                    i <= lines.len(),
                    suggestions.len() == i,
                    forall|j: int|
                        0 <= j < i ==> suggestions.deep_view()[j] == trimmed(lines.deep_view()[j]),
                decreases lines.len() - i,
            {
                let ghost before = suggestions.deep_view();
                let line = String::from_str(trim(lines[i].as_str()));
                suggestions.push(line);
                assert(suggestions.deep_view() == before.push(line@));
                assert(lines.deep_view()[i as int] == lines@[i as int]@);
                i = i + 1;
            }
            assert(suggestions.deep_view() == Seq::new(
                lines.deep_view().len(),
                |i: int| trimmed(lines.deep_view()[i]),
            ));
        } else {
            assert(suggestions.deep_view() == Seq::new(
                0,
                |i: int| trimmed(Seq::<Seq<char>>::empty()[i]),
            ));
        }
        if let Some(found) = similar {
            let ghost before = suggestions.deep_view();
            let line = String::from_str(trim(found.as_str()));
            suggestions.push(line);
            assert(suggestions.deep_view() == before.push(line@));
        }
        suggestions
    }

    /// The corrections for `script`, given what the two expressions found in
    /// the output.
    pub fn corrections_from(script: &str, asked: Option<String>, similar: Option<String>) -> (corrections:
        Vec<Correction>)
        ensures
            corrections.deep_view() == cargo_corrections(
                script@,
                asked.deep_view(),
                similar.deep_view(),
            ),
    {
        let suggestions = CargoRule::suggestions_from(&asked, &similar);
        let words = split_whitespace(script);
        if words.len() < 2 {
            return nothing();
        }
        assert(words.deep_view()[1] == words@[1]@);
        let mut corrections: Vec<Correction> = Vec::new();
        let mut i: usize = 0;
        while i < suggestions.len()
            invariant
                i <= suggestions.len(),
                corrections.len() == i,
                words.deep_view() == words_of(script@),
                words.len() >= 2,
                forall|j: int|
                    0 <= j < i ==> corrections.deep_view()[j] == plain_correction(
                        word_replaced(script@, words@[1]@, suggestions.deep_view()[j]),
                        false,
                        100,
                    ),
            decreases suggestions.len() - i,
        {
            let ghost before = corrections.deep_view();
            let correction = Correction::new(
                replace_word(script, words[1].as_str(), suggestions[i].as_str()),
                false,
                100,
            );
            corrections.push(correction);
            assert(corrections.deep_view() == before.push(correction@));
            assert(suggestions.deep_view()[i as int] == suggestions@[i as int]@);
            i = i + 1;
        }
        assert(corrections.deep_view() == cargo_corrections(
            script@,
            asked.deep_view(),
            similar.deep_view(),
        ));
        corrections
    }
}

impl Rule for CargoRule {
    open spec fn may_be_named(&self, name: Seq<char>) -> bool {
        name == "cargo"@
    }

    open spec fn may_answer(&self, command: CommandView, answer: bool) -> bool {
        answer == cargo_matches(command)
    }

    open spec fn may_propose(&self, command: CommandView, corrections: Seq<CorrectionView>) -> bool {
        corrections == cargo_corrections(
            command.script,
            captured(question_pattern(), command.stderr, 1),
            captured(similar_name_pattern(), command.stderr, 1),
        )
    }

    fn matches(&self, command: &Command) -> (answer: bool) {
        CargoRule::recognises(command.script.as_str(), command.stderr.as_str())
    }

    fn generate_corrections(&self, command: &Command) -> (corrections: Vec<Correction>) {
        let asked = capture("Did you mean (.*)\\?", command.stderr.as_str(), 1);
        let similar = capture("similar name exists: `(.*)`", command.stderr.as_str(), 1);
        CargoRule::corrections_from(command.script.as_str(), asked, similar)
    }

    fn name(&self) -> (name: &str) {
        "cargo"
    }
}

} // verus!
