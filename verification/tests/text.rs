use ffs::text::{
    chars_of, joined, contains, ends_with, equal, find, is_space, matches_at, replace_word,
    split_on, split_whitespace, starts_with, trim,
};

const SAMPLES: [&str; 14] = [
    "",
    " ",
    "a",
    "  leading",
    "trailing \t\n",
    " \u{a0}both\u{3000} ",
    "git  brnch   -v",
    "one\ntwo\n",
    "\n\nx",
    "na\u{ef}ve caf\u{e9}",
    "\u{2003}em\u{2003}space\u{2003}",
    "tab\tseparated\twords",
    "\u{180e}not space\u{200b}",
    "a\u{85}b\u{2028}c\u{2029}d\u{1680}e\u{202f}f\u{205f}g",
];

#[test]
fn is_space_agrees_with_the_standard_library_on_every_character() {
    for code in 0..=0x10ffff_u32 {
        if let Some(c) = char::from_u32(code) {
            assert_eq!(is_space(c), c.is_whitespace(), "U+{:04X}", code);
        }
    }
}

#[test]
fn trim_agrees_with_the_standard_library() {
    for sample in SAMPLES {
        assert_eq!(trim(sample), sample.trim(), "{:?}", sample);
    }
    assert_eq!(trim("  cd foo \n"), "cd foo");
    assert_eq!(trim(" \t "), "");
}

#[test]
fn split_whitespace_agrees_with_the_standard_library() {
    for sample in SAMPLES {
        let expected: Vec<String> = sample.split_whitespace().map(str::to_string).collect();
        assert_eq!(split_whitespace(sample), expected, "{:?}", sample);
    }
    assert_eq!(split_whitespace("  git   brnch "), vec!["git", "brnch"]);
    assert!(split_whitespace(" \n ").is_empty());
}

#[test]
fn split_on_agrees_with_the_standard_library() {
    for sample in SAMPLES {
        for separator in ['\n', ' ', 'a'] {
            let expected: Vec<String> = sample.split(separator).map(str::to_string).collect();
            assert_eq!(split_on(sample, separator), expected, "{:?}", sample);
        }
    }
    assert_eq!(split_on("a\n\nb\n", '\n'), vec!["a", "", "b", ""]);
    assert_eq!(split_on("", '\n'), vec![""]);
}

#[test]
fn searching_agrees_with_the_standard_library() {
    let patterns = ["", " ", "a", "it", "git", "\n", "\u{e9}", "words", "brnch   -v", "zzz"];
    for sample in SAMPLES {
        for pattern in patterns {
            assert_eq!(contains(sample, pattern), sample.contains(pattern));
            assert_eq!(starts_with(sample, pattern), sample.starts_with(pattern));
            assert_eq!(ends_with(sample, pattern), sample.ends_with(pattern));
            assert_eq!(equal(sample, pattern), sample == pattern);
        }
    }
}

#[test]
fn find_gives_the_leftmost_position_in_characters() {
    let text = chars_of("caf\u{e9} au lait au");
    assert_eq!(find(&text, &chars_of("au")), Some(5));
    assert_eq!(find(&text, &chars_of("")), Some(0));
    assert_eq!(find(&text, &chars_of("tea")), None);
    assert_eq!(find(&chars_of("ab"), &chars_of("abc")), None);
    assert!(matches_at(&text, &chars_of("au"), 13));
    assert!(!matches_at(&text, &chars_of("au"), 14));
    assert!(!matches_at(&text, &chars_of("au"), 100));
    assert!(matches_at(&text, &chars_of(""), 15));
    assert!(!matches_at(&text, &chars_of(""), 16));
}

#[test]
fn chars_of_and_concat_keep_every_character() {
    assert_eq!(chars_of("h\u{e9}!"), vec!['h', '\u{e9}', '!']);
    assert!(chars_of("").is_empty());
    assert_eq!(joined("sudo ", "ls"), "sudo ls");
    assert_eq!(joined("", ""), "");
}

#[test]
fn replace_word_replaces_the_first_whole_word() {
    assert_eq!(replace_word("git brnch", "brnch", "branch"), "git branch");
    assert_eq!(replace_word("git it it", "it", "x"), "git x it");
    assert_eq!(replace_word("  a\tb  a ", "a", "long"), "  long\tb  a ");
    assert_eq!(replace_word("checkout-x checkout y", "checkout", "checkout -b"),
        "checkout-x checkout -b y");
    assert_eq!(replace_word("git checkout", "checkout", "checkout -b"), "git checkout -b");
}

#[test]
fn replace_word_leaves_a_text_without_the_word() {
    assert_eq!(replace_word("git brnch", "brn", "x"), "git brnch");
    assert_eq!(replace_word("", "a", "x"), "");
    assert_eq!(replace_word("  \n", "a", "x"), "  \n");
    assert_eq!(replace_word("a b", "", "x"), "a b");
    assert_eq!(replace_word("caf\u{e9} th\u{e9}", "th\u{e9}", "tea"), "caf\u{e9} tea");
}
