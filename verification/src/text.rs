//! Text as sequences of characters: searching, trimming, splitting and
//! replacing, each with its meaning stated over `Seq<char>`.

use vstd::prelude::*;
use vstd::string::StrSliceExecFns;
use vstd::string::StringExecFns;

verus! {

/// `pattern` stands in `text` at position `at`.
pub open spec fn occurs_at(text: Seq<char>, pattern: Seq<char>, at: int) -> bool {
    &&& 0 <= at
    &&& at + pattern.len() <= text.len()
    &&& text.subrange(at, at + pattern.len()) == pattern
}

/// `text` begins with `pattern`.
pub open spec fn has_prefix(text: Seq<char>, pattern: Seq<char>) -> bool {
    occurs_at(text, pattern, 0)
}

/// `text` ends with `pattern`.
pub open spec fn has_suffix(text: Seq<char>, pattern: Seq<char>) -> bool {
    occurs_at(text, pattern, text.len() - pattern.len())
}

/// `pattern` stands somewhere in `text`.
pub open spec fn has_infix(text: Seq<char>, pattern: Seq<char>) -> bool {
    exists|at: int| occurs_at(text, pattern, at)
}

/// `at` is the leftmost position at which `pattern` stands in `text`.
pub open spec fn is_first_occurrence(text: Seq<char>, pattern: Seq<char>, at: int) -> bool {
    &&& occurs_at(text, pattern, at)
    &&& forall|before: int| 0 <= before < at ==> !occurs_at(text, pattern, before)
}

/// The characters of `text`, one element each.
pub fn chars_of(text: &str) -> (chars: Vec<char>)
    ensures
        chars@ == text@,
{
    let mut chars: Vec<char> = Vec::new();
    for c in it: text.chars()
        invariant
            it.seq() == text@,
            chars@ == it.seq().take(it.index() as int),
    {
        chars.push(c);
    }
    chars
}

/// Whether `pattern` stands in `text` at `at`.
pub fn matches_at(text: &Vec<char>, pattern: &Vec<char>, at: usize) -> (found: bool)
    ensures
        found == occurs_at(text@, pattern@, at as int),
{
    if pattern.len() > text.len() || at > text.len() - pattern.len() {
        return false;
    }
    let mut k: usize = 0;
    while k < pattern.len()
        invariant
            k <= pattern.len(),
            at + pattern.len() <= text.len(),
            forall|j: int| 0 <= j < k ==> text@[at + j] == pattern@[j],
        decreases pattern.len() - k,
    {
        if text[at + k] != pattern[k] {
            assert(text@.subrange(at as int, at + pattern.len())[k as int] != pattern@[k as int]);
            return false;
        }
        k = k + 1;
    }
    assert(text@.subrange(at as int, at + pattern.len()) =~= pattern@);
    true
}

/// The leftmost position at which `pattern` stands in `text`, if there is one.
pub fn find(text: &Vec<char>, pattern: &Vec<char>) -> (found: Option<usize>)
    ensures
        match found {
            Some(at) => is_first_occurrence(text@, pattern@, at as int),
            None => !has_infix(text@, pattern@),
        },
{
    if pattern.len() > text.len() {
        return None;
    }
    let last: usize = text.len() - pattern.len();
    let mut at: usize = 0;
    loop
        invariant
            last == text.len() - pattern.len(),
            at <= last,
            forall|before: int| 0 <= before < at ==> !occurs_at(text@, pattern@, before),
        decreases last - at,
    {
        if matches_at(text, pattern, at) {
            return Some(at);
        }
        if at == last {
            return None;
        }
        at = at + 1;
    }
}

/// Whether `first` and `second` hold the same characters.
pub fn equal(first: &str, second: &str) -> (same: bool)
    ensures
        same == (first@ == second@),
{
    let first_chars = chars_of(first);
    let second_chars = chars_of(second);
    if first_chars.len() != second_chars.len() {
        return false;
    }
    let same = matches_at(&first_chars, &second_chars, 0);
    assert(first@.subrange(0, first@.len() as int) == first@);
    same
}

/// Whether `name` is among the first `end` of `names`.
pub(crate) fn listed_before(names: &Vec<String>, end: usize, name: &str) -> (found: bool)
    requires
        end <= names.len(),
    ensures
        found == names.deep_view().take(end as int).contains(name@),
{
    let ghost early = names.deep_view().take(end as int);
    let mut i: usize = 0;
    while i < end
        invariant
            i <= end <= names.len(),
            early == names.deep_view().take(end as int),
            forall|j: int| 0 <= j < i ==> early[j] != name@,
        decreases end - i,
    {
        if equal(names[i].as_str(), name) {
            assert(early[i as int] == name@);
            return true;
        }
        i = i + 1;
    }
    false
}

/// Whether `text` begins with `pattern`.
pub fn starts_with(text: &str, pattern: &str) -> (found: bool)
    ensures
        found == has_prefix(text@, pattern@),
{
    let text_chars = chars_of(text);
    let pattern_chars = chars_of(pattern);
    matches_at(&text_chars, &pattern_chars, 0)
}

/// Whether `text` ends with `pattern`.
pub fn ends_with(text: &str, pattern: &str) -> (found: bool)
    ensures
        found == has_suffix(text@, pattern@),
{
    let text_chars = chars_of(text);
    let pattern_chars = chars_of(pattern);
    if pattern_chars.len() > text_chars.len() {
        return false;
    }
    matches_at(&text_chars, &pattern_chars, text_chars.len() - pattern_chars.len())
}

/// Whether `pattern` stands somewhere in `text`.
pub fn contains(text: &str, pattern: &str) -> (found: bool)
    ensures
        found == has_infix(text@, pattern@),
{
    let text_chars = chars_of(text);
    let pattern_chars = chars_of(pattern);
    find(&text_chars, &pattern_chars).is_some()
}

/// The characters that count as white space: those with the Unicode property
/// `White_Space`.
pub open spec fn is_whitespace(c: char) -> bool {
    let code = c as u32;
    ||| 0x09 <= code <= 0x0d
    ||| code == 0x20
    ||| code == 0x85
    ||| code == 0xa0
    ||| code == 0x1680
    ||| 0x2000 <= code <= 0x200a
    ||| code == 0x2028
    ||| code == 0x2029
    ||| code == 0x202f
    ||| code == 0x205f
    ||| code == 0x3000
}

/// `text` without the white space it begins with.
pub open spec fn without_leading_space(text: Seq<char>) -> Seq<char>
    decreases text.len(),
{
    if text.len() > 0 && is_whitespace(text[0]) {
        without_leading_space(text.drop_first())
    } else {
        text
    }
}

/// `text` without the white space it ends with.
pub open spec fn without_trailing_space(text: Seq<char>) -> Seq<char>
    decreases text.len(),
{
    if text.len() > 0 && is_whitespace(text.last()) {
        without_trailing_space(text.drop_last())
    } else {
        text
    }
}

/// `text` without the white space at either end.
pub open spec fn trimmed(text: Seq<char>) -> Seq<char> {
    without_trailing_space(without_leading_space(text))
}

/// Whether `c` counts as white space.
pub fn is_space(c: char) -> (space: bool)
    ensures
        space == is_whitespace(c),
{
    let code: u32 = c as u32;
    (0x09 <= code && code <= 0x0d) || code == 0x20 || code == 0x85 || code == 0xa0 || code
        == 0x1680 || (0x2000 <= code && code <= 0x200a) || code == 0x2028 || code == 0x2029
        || code == 0x202f || code == 0x205f || code == 0x3000
}

/// The first position at or after `from` at which `text` holds no white space.
fn skip_space(text: &Vec<char>, from: usize) -> (next: usize)
    requires
        from <= text.len(),
    ensures
        from <= next <= text.len(),
        forall|i: int| from <= i < next ==> is_whitespace(text@[i]),
        next < text.len() ==> !is_whitespace(text@[next as int]),
        text@.skip(next as int) == without_leading_space(text@.skip(from as int)),
{
    let mut next: usize = from;
    while next < text.len() && is_space(text[next])
        invariant
            from <= next <= text.len(),
            forall|i: int| from <= i < next ==> is_whitespace(text@[i]),
            without_leading_space(text@.skip(next as int)) == without_leading_space(
                text@.skip(from as int),
            ),
        decreases text.len() - next,
    {
        assert(text@.skip(next as int).drop_first() == text@.skip(next + 1));
        next = next + 1;
    }
    next
}

/// `text` without the white space at either end.
pub fn trim(text: &str) -> (inner: &str)
    ensures
        inner@ == trimmed(text@),
{
    let chars = chars_of(text);
    let start: usize = skip_space(&chars, 0);
    assert(chars@.skip(0) == chars@);
    let mut end: usize = chars.len();
    assert(chars@.subrange(start as int, end as int) == chars@.skip(start as int));
    while end > start && is_space(chars[end - 1])
        invariant
            start <= end <= chars.len(),
            without_trailing_space(chars@.subrange(start as int, end as int))
                == without_trailing_space(chars@.skip(start as int)),
        decreases end - start,
    {
        assert(chars@.subrange(start as int, end as int).drop_last() == chars@.subrange(
            start as int,
            end - 1,
        ));
        end = end - 1;
    }
    text.substring_char(start, end)
}

/// How many characters `text` begins with before its first white space.
pub open spec fn word_length(text: Seq<char>) -> nat
    decreases text.len(),
{
    if text.len() > 0 && !is_whitespace(text[0]) {
        1 + word_length(text.drop_first())
    } else {
        0
    }
}

/// A word never reaches past the end of its text.
pub proof fn lemma_word_length_bound(text: Seq<char>)
    ensures
        word_length(text) <= text.len(),
    decreases text.len(),
{
    if text.len() > 0 && !is_whitespace(text[0]) {
        lemma_word_length_bound(text.drop_first());
    }
}

/// The words of `text`: its longest runs of characters that are not white
/// space, from left to right.
pub open spec fn words_of(text: Seq<char>) -> Seq<Seq<char>>
    decreases text.len(),
{
    if text.len() == 0 {
        seq![]
    } else if is_whitespace(text[0]) {
        words_of(text.drop_first())
    } else {
        let n = word_length(text) as int;
        proof {
            lemma_word_length_bound(text);
        }
        seq![text.take(n)] + words_of(text.skip(n))
    }
}

/// Leading white space holds no word.
pub proof fn lemma_words_skip_space(text: Seq<char>)
    ensures
        words_of(text) == words_of(without_leading_space(text)),
    decreases text.len(),
{
    if text.len() > 0 && is_whitespace(text[0]) {
        lemma_words_skip_space(text.drop_first());
    }
}

/// The first position at or after `from` at which `text` holds white space.
fn skip_word(text: &Vec<char>, from: usize) -> (next: usize)
    requires
        from <= text.len(),
    ensures
        from <= next <= text.len(),
        next - from == word_length(text@.skip(from as int)),
{
    let mut next: usize = from;
    while next < text.len() && !is_space(text[next])
        invariant
            from <= next <= text.len(),
            word_length(text@.skip(from as int)) == (next - from) + word_length(
                text@.skip(next as int),
            ),
        decreases text.len() - next,
    {
        assert(text@.skip(next as int).drop_first() == text@.skip(next + 1));
        next = next + 1;
    }
    next
}

/// The words of `text`.
pub fn split_whitespace(text: &str) -> (words: Vec<String>)
    ensures
        words.deep_view() == words_of(text@),
{
    let chars = chars_of(text);
    let mut words: Vec<String> = Vec::new();
    let mut at: usize = 0;
    assert(chars@.skip(0) == chars@);
    loop
        invariant
            chars@ == text@,
            at <= chars.len(),
            words.deep_view() + words_of(chars@.skip(at as int)) == words_of(chars@),
        ensures
            words.deep_view() == words_of(chars@),
        decreases chars.len() - at,
    {
        let start: usize = skip_space(&chars, at);
        proof {
            lemma_words_skip_space(chars@.skip(at as int));
        }
        if start == chars.len() {
            assert(words.deep_view() + Seq::<Seq<char>>::empty() == words.deep_view());
            break;
        }
        let end: usize = skip_word(&chars, start);
        let word = text.substring_char(start, end).to_owned();
        proof {
            let rest = chars@.skip(start as int);
            assert(rest.take(end - start) == chars@.subrange(start as int, end as int));
            assert(rest.skip(end - start) == chars@.skip(end as int));
            assert(words.deep_view().push(word@) + words_of(chars@.skip(end as int))
                == words.deep_view() + words_of(rest));
        }
        let ghost before = words.deep_view();
        words.push(word);
        assert(words.deep_view() == before.push(word@));
        at = end;
    }
    words
}

/// How many characters `text` begins with before its first `separator`.
pub open spec fn piece_length(text: Seq<char>, separator: char) -> nat
    decreases text.len(),
{
    if text.len() > 0 && text[0] != separator {
        1 + piece_length(text.drop_first(), separator)
    } else {
        0
    }
}

/// The pieces into which the occurrences of `separator` cut `text`, from left
/// to right. A text without the separator is its only piece; a separator at
/// either end gives an empty piece there.
pub open spec fn pieces_of(text: Seq<char>, separator: char) -> Seq<Seq<char>>
    decreases text.len(),
{
    let n = piece_length(text, separator) as int;
    if n >= text.len() {
        seq![text]
    } else {
        seq![text.take(n)] + pieces_of(text.skip(n + 1), separator)
    }
}

/// The first position at or after `from` at which `text` holds `separator`.
fn skip_piece(text: &Vec<char>, from: usize, separator: char) -> (next: usize)
    requires
        from <= text.len(),
    ensures
        from <= next <= text.len(),
        next - from == piece_length(text@.skip(from as int), separator),
{
    let mut next: usize = from;
    while next < text.len() && text[next] != separator
        invariant
            from <= next <= text.len(),
            piece_length(text@.skip(from as int), separator) == (next - from) + piece_length(
                text@.skip(next as int),
                separator,
            ),
        decreases text.len() - next,
    {
        assert(text@.skip(next as int).drop_first() == text@.skip(next + 1));
        next = next + 1;
    }
    next
}

/// The pieces into which the occurrences of `separator` cut `text`.
pub fn split_on(text: &str, separator: char) -> (pieces: Vec<String>)
    ensures
        pieces.deep_view() == pieces_of(text@, separator),
{
    let chars = chars_of(text);
    let mut pieces: Vec<String> = Vec::new();
    let mut at: usize = 0;
    assert(chars@.skip(0) == chars@);
    loop
        invariant_except_break
            pieces.deep_view() + pieces_of(chars@.skip(at as int), separator) == pieces_of(
                chars@,
                separator,
            ),
        invariant
            chars@ == text@,
            at <= chars.len(),
        ensures
            pieces.deep_view() == pieces_of(chars@, separator),
        decreases chars.len() - at,
    {
        let end: usize = skip_piece(&chars, at, separator);
        let piece = text.substring_char(at, end).to_owned();
        let ghost before = pieces.deep_view();
        let ghost rest = chars@.skip(at as int);
        assert(rest.take(end - at) == chars@.subrange(at as int, end as int));
        pieces.push(piece);
        assert(pieces.deep_view() == before.push(piece@));
        if end == chars.len() {
            assert(rest.take(end - at) == rest);
            assert(before + seq![rest] == before.push(rest));
            break;
        }
        assert(rest.skip(end - at + 1) == chars@.skip(end + 1));
        assert(before.push(piece@) + pieces_of(chars@.skip(end + 1), separator) == before
            + pieces_of(rest, separator));
        at = end + 1;
    }
    pieces
}

/// The texts `first` and `second`, one after the other.
pub fn joined(first: &str, second: &str) -> (both: String)
    ensures
        both@ == first@ + second@,
{
    let mut both = String::from_str(first);
    both.append(second);
    both
}

/// `text` with its first word that equals `token` replaced by `replacement`;
/// `text` itself where no word equals `token`. A word is a longest run of
/// characters that are not white space, so text inside a longer word is never
/// touched, and the white space of `text` stays as it is.
pub open spec fn word_replaced(
    text: Seq<char>,
    token: Seq<char>,
    replacement: Seq<char>,
) -> Seq<char>
    decreases text.len(),
{
    if text.len() == 0 {
        text
    } else if is_whitespace(text[0]) {
        seq![text[0]] + word_replaced(text.drop_first(), token, replacement)
    } else {
        let n = word_length(text) as int;
        proof {
            lemma_word_length_bound(text);
        }
        if text.take(n) == token {
            replacement + text.skip(n)
        } else {
            text.take(n) + word_replaced(text.skip(n), token, replacement)
        }
    }
}

/// Leading white space stays where it is when a word is replaced.
pub proof fn lemma_word_replaced_after_space(
    text: Seq<char>,
    token: Seq<char>,
    replacement: Seq<char>,
    spaces: int,
)
    requires
        0 <= spaces <= text.len(),
        forall|i: int| 0 <= i < spaces ==> is_whitespace(text[i]),
    ensures
        word_replaced(text, token, replacement) == text.take(spaces) + word_replaced(
            text.skip(spaces),
            token,
            replacement,
        ),
    decreases spaces,
{
    if spaces == 0 {
        assert(text.skip(0) == text);
        assert(text.take(0) + text == text);
    } else {
        let rest = text.drop_first();
        assert forall|i: int| 0 <= i < spaces - 1 implies is_whitespace(rest[i]) by {
            assert(rest[i] == text[i + 1]);
        }
        lemma_word_replaced_after_space(rest, token, replacement, spaces - 1);
        assert(rest.skip(spaces - 1) == text.skip(spaces));
        assert(seq![text[0]] + rest.take(spaces - 1) == text.take(spaces));
    }
}

/// `text` with its first word that equals `token` replaced by `replacement`.
pub fn replace_word(text: &str, token: &str, replacement: &str) -> (replaced: String)
    ensures
        replaced@ == word_replaced(text@, token@, replacement@),
{
    let chars = chars_of(text);
    let mut at: usize = 0;
    assert(chars@.skip(0) == chars@);
    assert(chars@.take(0) + chars@ == chars@);
    loop
        invariant
            chars@ == text@,
            at <= chars.len(),
            word_replaced(chars@, token@, replacement@) == chars@.take(at as int) + word_replaced(
                chars@.skip(at as int),
                token@,
                replacement@,
            ),
        decreases chars.len() - at,
    {
        let start: usize = skip_space(&chars, at);
        let ghost rest = chars@.skip(at as int);
        proof {
            assert forall|i: int| 0 <= i < start - at implies is_whitespace(rest[i]) by {
                assert(rest[i] == chars@[at + i]);
            }
            lemma_word_replaced_after_space(rest, token@, replacement@, start - at);
            assert(rest.skip(start - at) == chars@.skip(start as int));
            assert(chars@.take(at as int) + rest.take(start - at) == chars@.take(start as int));
        }
        if start == chars.len() {
            assert(chars@.take(start as int) + Seq::<char>::empty() == chars@);
            return String::from_str(text);
        }
        let end: usize = skip_word(&chars, start);
        let ghost tail = chars@.skip(start as int);
        proof {
            assert(tail.take(end - start) == chars@.subrange(start as int, end as int));
            assert(tail.skip(end - start) == chars@.skip(end as int));
            assert(chars@.take(start as int) + tail.take(end - start) == chars@.take(
                end as int,
            ));
        }
        if equal(text.substring_char(start, end), token) {
            let mut replaced = joined(text.substring_char(0, start), replacement);
            replaced.append(text.substring_char(end, chars.len()));
            assert(chars@.subrange(end as int, chars@.len() as int) == chars@.skip(end as int));
            return replaced;
        }
        at = end;
    }
}

/// The lowercase form of a text, by the rules of Unicode.
pub uninterp spec fn lowercase(text: Seq<char>) -> Seq<char>;

/// The lowercase form of `text`.
///
/// This calls `str::to_lowercase` of the standard library and is not proved:
/// what comes back is taken to be the lowercase form that `lowercase` names.
#[verifier::external_body]
pub(crate) fn to_lowercase(text: &str) -> (lower: String)
    ensures
        lower@ == lowercase(text@),
{
    text.to_lowercase()
}

} // verus!
