use trace_conformance::text::contains_text;

#[test]
fn finds_text_in_the_middle() {
    assert!(contains_text("value is out of range here", "out of range"));
}

#[test]
fn finds_text_at_both_ends() {
    assert!(contains_text("out of range", "out"));
    assert!(contains_text("out of range", "range"));
    assert!(contains_text("out of range", "out of range"));
}

#[test]
fn empty_text_is_in_every_text() {
    assert!(contains_text("abc", ""));
    assert!(contains_text("", ""));
}

#[test]
fn nothing_but_the_empty_text_is_in_the_empty_text() {
    assert!(!contains_text("", "a"));
}

#[test]
fn longer_text_is_not_found() {
    assert!(!contains_text("range", "out of range"));
}

#[test]
fn case_counts() {
    assert!(!contains_text("value is Out Of Range", "out of range"));
    assert!(!contains_text("out of range", "Out of range"));
}

#[test]
fn scattered_letters_are_no_match() {
    assert!(!contains_text("o-u-t", "out"));
    assert!(!contains_text("aab", "aba"));
}

#[test]
fn repeated_starts_are_followed_up() {
    assert!(contains_text("aaab", "aab"));
    assert!(contains_text("abababc", "ababc"));
}

#[test]
fn works_on_characters_not_bytes() {
    assert!(contains_text("größe überschritten", "überschritten"));
    assert!(contains_text("日本語のエラー", "のエ"));
    assert!(!contains_text("größe", "grosse"));
}

#[test]
fn agrees_with_the_standard_search() {
    let hays = ["", "a", "ab", "abcabc", "Error at pc=0:2:\nAn ASSERT_EQ instruction failed"];
    let needles = ["", "a", "b", "bc", "cab", "abcd", "ASSERT_EQ", "assert_eq", "\n"];
    for hay in hays {
        for needle in needles {
            assert_eq!(contains_text(hay, needle), hay.contains(needle), "{:?} in {:?}", needle, hay);
        }
    }
}
