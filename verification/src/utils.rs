//! The command to correct, as it is found in the history that the shell
//! hands over.

use crate::text::{has_prefix, pieces_of, split_on, starts_with, trim, trimmed};
use vstd::prelude::*;
use vstd::string::StringExecFns;

verus! {

/// A line of the history holds a command to correct: it is not empty and is
/// no call of this program.
pub open spec fn is_correctable(line: Seq<char>) -> bool {
    &&& trimmed(line).len() > 0
    &&& !has_prefix(trimmed(line), "ffs"@)
    &&& !has_prefix(trimmed(line), "fuck"@)
}

/// The last of `lines` that holds a command to correct, trimmed.
pub open spec fn last_correctable(lines: Seq<Seq<char>>) -> Option<Seq<char>>
    decreases lines.len(),
{
    if lines.len() == 0 {
        None
    } else if is_correctable(lines.last()) {
        Some(trimmed(lines.last()))
    } else {
        last_correctable(lines.drop_last())
    }
}

/// The command to correct in `history`, whose lines are commands, the
/// latest last: the last line that is not empty and no call of this program.
pub open spec fn last_command(history: Seq<char>) -> Option<Seq<char>> {
    last_correctable(pieces_of(trimmed(history), '\n'))
}

/// The command to correct in `history`, if it holds one.
pub fn get_last_command(history: &str) -> (command: Option<String>)
    ensures
        command.deep_view() == last_command(history@),
{
    let lines = split_on(trim(history), '\n');
    let mut end: usize = lines.len();
    assert(lines.deep_view().take(end as int) == lines.deep_view());
    while end > 0
        invariant
            end <= lines.len(),
            lines.deep_view() == pieces_of(trimmed(history@), '\n'),
            last_correctable(lines.deep_view()) == last_correctable(
                lines.deep_view().take(end as int),
            ),
        decreases end,
    {
        let ghost seen = lines.deep_view().take(end as int);
        assert(seen.drop_last() == lines.deep_view().take(end - 1));
        assert(seen.last() == lines@[end - 1]@);
        let line = trim(lines[end - 1].as_str());
        if !line.is_empty() && !starts_with(line, "ffs") && !starts_with(line, "fuck") {
            return Some(String::from_str(line));
        }
        end = end - 1;
    }
    None
}

} // verus!
