//! A command that the shell does not know is replaced by the known commands
//! whose names are closest to it.

use crate::rules::{nothing, Rule};
use crate::shell::{arguments, arguments_of, join, replace_command, shell_line, with_command};
use crate::text::{contains, equal, has_infix, listed_before, lowercase, to_lowercase};
use crate::types::{Command, CommandView, Correction, CorrectionView, plain_correction};
use vstd::prelude::*;
use vstd::utf8::encode_utf8;

verus! {

/// The least number of characters to insert, delete or replace that turns
/// `first` into `second`.
pub uninterp spec fn edit_distance(first: Seq<char>, second: Seq<char>) -> nat;

/// The edit distance between `first` and `second`.
///
/// This calls `strsim::levenshtein` and is not proved: its result is taken
/// to be the distance that `edit_distance` names.
#[verifier::external_body]
pub(crate) fn levenshtein(first: &str, second: &str) -> (distance: usize)
    ensures
        distance == edit_distance(first@, second@),
{
    strsim::levenshtein(first, second)
}

/// The number of bytes that `text` takes in UTF-8.
pub open spec fn byte_length(text: Seq<char>) -> nat {
    encode_utf8(text).len()
}

/// A name at `distance` from the target is close to it: the distance is
/// between 1 and 3 and less than half of the longer of the two lengths.
pub open spec fn is_close(distance: usize, target_length: nat, name_length: nat) -> bool {
    &&& 0 < distance <= 3
    &&& 2 * distance < target_length || 2 * distance < name_length
}

/// The names among `names` that are close to the target and stand at
/// `distance` from it, each once, in the order in which they first occur.
/// `distances` holds the distance of each name.
pub open spec fn close_at(
    names: Seq<Seq<char>>,
    distances: Seq<usize>,
    target_length: nat,
    distance: usize,
) -> Seq<Seq<char>>
    decreases names.len(),
{
    if names.len() == 0 {
        seq![]
    } else {
        let earlier = close_at(names.drop_last(), distances.drop_last(), target_length, distance);
        let name = names.last();
        if distances.last() == distance && is_close(distance, target_length, byte_length(name))
            && !names.drop_last().contains(name) {
            earlier.push(name)
        } else {
            earlier
        }
    }
}

/// The names that are offered for a target: the close ones, by ascending
/// distance, those of one distance in the order in which they first occur,
/// and no more than three. There is none where `distances` does not hold one
/// distance for each name.
pub open spec fn most_similar(
    names: Seq<Seq<char>>,
    distances: Seq<usize>,
    target_length: nat,
) -> Seq<Seq<char>> {
    let all = close_at(names, distances, target_length, 1) + close_at(
        names,
        distances,
        target_length,
        2,
    ) + close_at(names, distances, target_length, 3);
    if names.len() != distances.len() {
        seq![]
    } else if all.len() > 3 {
        all.take(3)
    } else {
        all
    }
}

/// The distance of each of `names` from `target`.
pub open spec fn distances_from(target: Seq<char>, names: Seq<Seq<char>>) -> Seq<usize> {
    Seq::new(names.len(), |i: int| edit_distance(target, names[i]) as usize)
}

/// The known commands that are offered in place of `target`.
pub open spec fn similar_commands(target: Seq<char>, names: Seq<Seq<char>>) -> Seq<Seq<char>> {
    most_similar(names, distances_from(target, names), byte_length(target))
}

/// The names among `names` that are close to a target of `target_length`
/// bytes and stand at `distance` from it, added to `chosen`.
fn choose_at(
    chosen: &mut Vec<String>,
    names: &Vec<String>,
    distances: &Vec<usize>,
    target_length: usize,
    distance: usize,
)
    requires
        names.len() == distances.len(),
        0 < distance <= 3,
    ensures
        final(chosen).deep_view() == old(chosen).deep_view() + close_at(
            names.deep_view(),
            distances@,
            target_length as nat,
            distance,
        ),
{
    let ghost before = chosen.deep_view();
    let mut i: usize = 0;
    assert(names.deep_view().take(0) == Seq::<Seq<char>>::empty());
    assert(before + Seq::<Seq<char>>::empty() == before);
    while i < names.len()
        invariant
            i <= names.len(),
            names.len() == distances.len(),
            0 < distance <= 3,
            chosen.deep_view() == before + close_at(
                names.deep_view().take(i as int),
                distances@.take(i as int),
                target_length as nat,
                distance,
            ),
        decreases names.len() - i,
    {
        let ghost seen = chosen.deep_view();
        let ghost next = names.deep_view().take(i + 1);
        assert(next.drop_last() == names.deep_view().take(i as int));
        assert(distances@.take(i + 1).drop_last() == distances@.take(i as int));
        assert(next.last() == names@[i as int]@);
        let name = names[i].as_str();
        let length: usize = name.as_bytes().len();
        assert(length == byte_length(name@));
        if distances[i] == distance && (2 * distance < target_length || 2 * distance < length)
            && !listed_before(names, i, name) {
            let copy = names[i].clone();
            chosen.push(copy);
            assert(chosen.deep_view() == seen.push(copy@));
            assert(seen.push(copy@) == before + close_at(
                names.deep_view().take(i as int),
                distances@.take(i as int),
                target_length as nat,
                distance,
            ).push(copy@));
        }
        i = i + 1;
    }
    assert(names.deep_view().take(i as int) == names.deep_view());
    assert(distances@.take(i as int) == distances@);
}

/// The names that are offered for a target of `target_length` bytes, given
/// the distance of each of `names` from it.
pub fn select_similar(names: &Vec<String>, distances: &Vec<usize>, target_length: usize) -> (chosen:
    Vec<String>)
    ensures
        chosen.deep_view() == most_similar(names.deep_view(), distances@, target_length as nat),
{
    let mut chosen: Vec<String> = Vec::new();
    assert(chosen.deep_view() == Seq::<Seq<char>>::empty());
    if names.len() != distances.len() {
        return chosen;
    }
    choose_at(&mut chosen, names, distances, target_length, 1);
    choose_at(&mut chosen, names, distances, target_length, 2);
    choose_at(&mut chosen, names, distances, target_length, 3);
    let ghost all = chosen.deep_view();
    assert(all == close_at(names.deep_view(), distances@, target_length as nat, 1) + close_at(
        names.deep_view(),
        distances@,
        target_length as nat,
        2,
    ) + close_at(names.deep_view(), distances@, target_length as nat, 3));
    chosen.truncate(3);
    assert(chosen.deep_view() == if all.len() > 3 {
        all.take(3)
    } else {
        all
    });
    chosen
}

/// The known commands that are offered in place of `target`: those among
/// `executables` whose names are close to it, the closest first.
pub fn find_similar_commands(target: &str, executables: &Vec<String>) -> (similar: Vec<String>)
    ensures
        similar.deep_view() == similar_commands(target@, executables.deep_view()),
{
    let mut distances: Vec<usize> = Vec::new();
    let mut i: usize = 0;
    while i < executables.len()
        invariant
            i <= executables.len(),
            distances.len() == i,
            forall|j: int|
                0 <= j < i ==> distances@[j] == edit_distance(target@, executables.deep_view()[j]),
        decreases executables.len() - i,
    {
        assert(executables.deep_view()[i as int] == executables@[i as int]@);
        distances.push(levenshtein(target, executables[i].as_str()));
        i = i + 1;
    }
    assert(distances@ == distances_from(target@, executables.deep_view()));
    let target_length: usize = target.as_bytes().len();
    assert(target_length == byte_length(target@));
    select_similar(executables, &distances, target_length)
}

/// The permission bits `mode` of a file let someone run it.
pub open spec fn mode_runs(mode: u32) -> bool {
    mode & 0o111 != 0
}

/// Whether the permission bits `mode` of a file let someone run it.
pub fn is_executable_mode(mode: u32) -> (runs: bool)
    ensures
        runs == mode_runs(mode),
{
    mode & 0o111 != 0
}

/// A file with the extension `lower_extension`, given in lowercase, is one
/// that Windows runs.
pub open spec fn extension_runs(lower_extension: Seq<char>) -> bool {
    lower_extension == "exe"@ || lower_extension == "cmd"@ || lower_extension == "bat"@
}

/// Whether a file with the extension `lower_extension`, given in lowercase,
/// is one that Windows runs.
pub fn is_executable_extension(lower_extension: &str) -> (runs: bool)
    ensures
        runs == extension_runs(lower_extension@),
{
    equal(lower_extension, "exe") || equal(lower_extension, "cmd") || equal(
        lower_extension,
        "bat",
    )
}

/// The rule `unknown_command`.
///
/// The rule does not search the file system itself. It is made with the
/// names of the commands that can be run, in the order in which they were
/// found.
#[derive(Debug)]
pub struct UnknownCommand {
    executables: Vec<String>,
}

/// There is a script, and the output, in lowercase, says that the shell did
/// not know its command.
pub open spec fn command_unknown(script: Seq<char>, lower_stderr: Seq<char>) -> bool {
    &&& script.len() > 0
    &&& {
        ||| has_infix(lower_stderr, "command not found"@)
        ||| has_infix(lower_stderr, "unknown command"@)
        ||| has_infix(lower_stderr, "is not recognized as an internal or external command"@)
    }
}

/// Whether the rule matches `command`.
pub open spec fn unknown_command_matches(command: CommandView) -> bool {
    command_unknown(command.script, lowercase(command.stderr))
}

/// The corrections of the rule, given the arguments of the script and the
/// commands to offer: for each of them, the arguments with that command in
/// the first place, as one command line. There is none where the script has
/// no argument.
pub open spec fn unknown_command_corrections(
    words: Seq<Seq<char>>,
    candidates: Seq<Seq<char>>,
) -> Seq<CorrectionView> {
    if words.len() > 0 {
        Seq::new(
            candidates.len(),
            |i: int| plain_correction(shell_line(with_command(words, candidates[i])), false, 50),
        )
    } else {
        seq![]
    }
}

/// The corrections of the rule for `script`, given the commands that can be
/// run. There is none where the script cannot be split or has no argument.
pub open spec fn unknown_command_proposals(
    script: Seq<char>,
    executables: Seq<Seq<char>>,
) -> Seq<CorrectionView> {
    match arguments_of(script) {
        Some(words) if words.len() > 0 => unknown_command_corrections(
            words,
            similar_commands(words[0], executables),
        ),
        _ => seq![],
    }
}

impl UnknownCommand {
    /// The commands that the rule takes to be runnable.
    pub closed spec fn executables(&self) -> Seq<Seq<char>> {
        self.executables.deep_view()
    }

    /// The rule for a system on which the commands `executables` can be run.
    pub fn new(executables: Vec<String>) -> (rule: Self)
        ensures
            rule.executables() == executables.deep_view(),
    {
        Self { executables }
    }

    /// Whether `script` and its `stderr`, brought to lowercase, show a
    /// command that the shell did not know.
    pub fn recognises(script: &str, lower_stderr: &str) -> (answer: bool)
        ensures
            answer == command_unknown(script@, lower_stderr@),
    {
        !script.is_empty() && (contains(lower_stderr, "command not found") || contains(
            lower_stderr,
            "unknown command",
        ) || contains(lower_stderr, "is not recognized as an internal or external command"))
    }

    /// The corrections, given the arguments of the script and the commands
    /// to offer.
    pub fn corrections_from(words: &Vec<String>, candidates: &Vec<String>) -> (corrections: Vec<
        Correction,
    >)
        ensures
            corrections.deep_view() == unknown_command_corrections(
                words.deep_view(),
                candidates.deep_view(),
            ),
    {
        if words.len() == 0 {
            return nothing();
        }
        let mut corrections: Vec<Correction> = Vec::new();
        let mut i: usize = 0;
        while i < candidates.len()
            invariant
                i <= candidates.len(),
                corrections.len() == i,
                words.len() > 0,
                forall|j: int|
                    0 <= j < i ==> corrections.deep_view()[j] == plain_correction(
                        shell_line(with_command(words.deep_view(), candidates.deep_view()[j])),
                        false,
                        50,
                    ),
            decreases candidates.len() - i,
        {
            let ghost before = corrections.deep_view();
            let line = join(&replace_command(words, candidates[i].as_str()));
            let correction = Correction::new(line, false, 50);
            corrections.push(correction);
            assert(corrections.deep_view() == before.push(correction@));
            assert(candidates.deep_view()[i as int] == candidates@[i as int]@);
            i = i + 1;
        }
        assert(corrections.deep_view() == unknown_command_corrections(
            words.deep_view(),
            candidates.deep_view(),
        ));
        corrections
    }
}

impl Rule for UnknownCommand {
    open spec fn may_be_named(&self, name: Seq<char>) -> bool {
        name == "unknown_command"@
    }

    open spec fn may_answer(&self, command: CommandView, answer: bool) -> bool {
        answer == unknown_command_matches(command)
    }

    open spec fn may_propose(&self, command: CommandView, corrections: Seq<CorrectionView>) -> bool {
        corrections == unknown_command_proposals(command.script, self.executables())
    }

    fn matches(&self, command: &Command) -> (answer: bool) {
        let lower_stderr = to_lowercase(command.stderr.as_str());
        UnknownCommand::recognises(command.script.as_str(), lower_stderr.as_str())
    }

    fn generate_corrections(&self, command: &Command) -> (corrections: Vec<Correction>) {
        match arguments(command.script.as_str()) {
            Some(words) => {
                if words.len() == 0 {
                    return nothing();
                }
                assert(words.deep_view()[0] == words@[0]@);
                let candidates = find_similar_commands(words[0].as_str(), &self.executables);
                UnknownCommand::corrections_from(&words, &candidates)
            },
            None => nothing(),
        }
    }

    fn name(&self) -> (name: &str) {
        "unknown_command"
    }
}

} // verus!
