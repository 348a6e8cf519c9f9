//! Searching a text with a regular expression, by the crate `regex`.

use vstd::prelude::*;

verus! {

/// What capture group `group` holds in the leftmost match of the regular
/// expression `pattern` in `text`. `None` where `pattern` is no valid
/// expression, where it matches nowhere in `text`, or where the group took no
/// part in the match. Group 0 is the whole match.
pub uninterp spec fn captured(pattern: Seq<char>, text: Seq<char>, group: int) -> Option<
    Seq<char>,
>;

/// The text of capture group `group` in the leftmost match of `pattern` in
/// `text`.
///
/// This compiles `pattern` with `regex::Regex::new`, searches `text` with
/// `Regex::captures` and reads the group with `Captures::get` and
/// `Match::as_str`. It is not proved: its result is taken to be what
/// `captured` names.
#[verifier::external_body]
pub(crate) fn capture(pattern: &str, text: &str, group: usize) -> (found: Option<String>)
    ensures
        found.deep_view() == captured(pattern@, text@, group as int),
{
    let expression = match regex::Regex::new(pattern) {
        Ok(expression) => expression,
        Err(_) => return None,
    };
    let groups = expression.captures(text)?;
    let found = groups.get(group)?;
    Some(found.as_str().to_string())
}

} // verus!
