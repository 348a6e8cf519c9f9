//! Command lines as a Unix shell reads and writes them. The splitting, the
//! joining and the quoting are those of the crates `shell-words` and
//! `shell-escape`; the functions here hand them texts and take texts back.

use vstd::prelude::*;
use vstd::string::StringExecFns;

verus! {

/// The error with which `shell_words::split` refuses a command line.
#[verifier::external_type_specification]
#[verifier::external_body]
pub struct ExParseError(shell_words::ParseError);

/// The arguments into which a Unix shell splits `line`, quotes and escapes
/// removed; `None` where `line` leaves a quote open.
pub uninterp spec fn arguments_of(line: Seq<char>) -> Option<Seq<Seq<char>>>;

/// The command line that holds `words` as its arguments, each quoted as far
/// as a Unix shell needs it and one space between two of them.
pub uninterp spec fn shell_line(words: Seq<Seq<char>>) -> Seq<char>;

/// Splits `line` into arguments.
///
/// This calls `shell_words::split` and is not proved: its result is taken to
/// be what `arguments_of` names, the error standing for `None`.
#[verifier::external_body]
pub(crate) fn split(line: &str) -> (words: Result<Vec<String>, shell_words::ParseError>)
    ensures
        match words {
            Ok(words) => arguments_of(line@) == Some(words.deep_view()),
            Err(_) => arguments_of(line@) is None,
        },
{
    shell_words::split(line)
}

/// Joins `words` into one command line.
///
/// This calls `shell_words::join` and is not proved: its result is taken to
/// be what `shell_line` names.
#[verifier::external_body]
pub(crate) fn join(words: &Vec<String>) -> (line: String)
    ensures
        line@ == shell_line(words.deep_view()),
{
    shell_words::join(words)
}

/// Quotes `text` so that a shell reads it as one argument.
///
/// This calls `shell_escape::escape`, which quotes for the shell of the
/// platform it runs on and looks at the environment to tell which that is.
/// Nothing is claimed of what comes back.
#[verifier::external_body]
pub(crate) fn escape(text: &str) -> (quoted: String) {
    shell_escape::escape(std::borrow::Cow::Borrowed(text)).into_owned()
}

/// `words` with `command` in the place of its first argument; `words` itself
/// where it holds no argument.
pub open spec fn with_command(words: Seq<Seq<char>>, command: Seq<char>) -> Seq<Seq<char>> {
    if words.len() > 0 {
        words.update(0, command)
    } else {
        words
    }
}

/// `words` with `command` in the place of its first argument.
pub fn replace_command(words: &Vec<String>, command: &str) -> (changed: Vec<String>)
    ensures
        changed.deep_view() == with_command(words.deep_view(), command@),
{
    let mut changed: Vec<String> = Vec::new();
    if words.len() == 0 {
        assert(changed.deep_view() == words.deep_view());
        return changed;
    }
    changed.push(String::from_str(command));
    let mut i: usize = 1;
    while i < words.len()
        invariant
            1 <= i <= words.len(),
            changed.len() == i,
            changed.deep_view()[0] == command@,
            forall|j: int| 1 <= j < i ==> changed.deep_view()[j] == words.deep_view()[j],
        decreases words.len() - i,
    {
        let ghost before = changed.deep_view();
        let word = words[i].clone();
        changed.push(word);
        assert(changed.deep_view() == before.push(word@));
        assert(words.deep_view()[i as int] == words@[i as int]@);
        i = i + 1;
    }
    assert(changed.deep_view() == words.deep_view().update(0, command@));
    changed
}

/// The arguments of `line`, or `None` where `line` leaves a quote open.
pub fn arguments(line: &str) -> (words: Option<Vec<String>>)
    ensures
        words.deep_view() == arguments_of(line@),
{
    match split(line) {
        Ok(words) => Some(words),
        Err(_) => None,
    }
}

} // verus!
