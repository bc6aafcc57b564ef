use lazy_notes::text::{
    chars_of, concat2, find_char, has_suffix, matches_at, replace, same_text,
    same_text_ignore_ascii_case, to_ascii_lower,
};

#[test]
fn texts_compare_by_characters() {
    assert!(same_text("", ""));
    assert!(same_text("héllo", "héllo"));
    assert!(!same_text("hello", "hellO"));
    assert!(!same_text("hello", "hell"));
    assert!(same_text_ignore_ascii_case("TrUe", "true"));
    assert!(!same_text_ignore_ascii_case("É", "é"));
    assert!(!same_text_ignore_ascii_case("true", "tru"));
    assert_eq!(to_ascii_lower('A'), 'a');
    assert_eq!(to_ascii_lower('Z'), 'z');
    assert_eq!(to_ascii_lower('a'), 'a');
    assert_eq!(to_ascii_lower('['), '[');
    assert_eq!(to_ascii_lower('@'), '@');
}

#[test]
fn characters_are_found() {
    let chars = chars_of("a=b;c=d");
    assert_eq!(chars, vec!['a', '=', 'b', ';', 'c', '=', 'd']);
    assert_eq!(find_char(&chars, ';', chars.len()), 3);
    assert_eq!(find_char(&chars, '=', 3), 1);
    assert_eq!(find_char(&chars, 'x', chars.len()), 7);
    assert_eq!(find_char(&chars, 'c', 3), 3);
    assert_eq!(find_char(&chars, 'a', 0), 0);
    assert_eq!(find_char(&chars, 'x', 100), 7);
    assert_eq!(find_char(&chars, 'd', 100), 6);
}

#[test]
fn suffixes() {
    assert!(has_suffix("note.md", ".md"));
    assert!(has_suffix(".md", ".md"));
    assert!(has_suffix("x", ""));
    assert!(!has_suffix("md", ".md"));
    assert!(!has_suffix("note.mdx", ".md"));
    assert!(!has_suffix("", ".md"));
}

#[test]
fn replacing_goes_left_to_right() {
    assert_eq!(replace("aaaa", "aa", "b"), "bb");
    assert_eq!(replace("aaa", "aa", "b"), "ba");
    assert_eq!(replace("abcabc", "bc", ""), "aa");
    assert_eq!(replace("abc", "x", "y"), "abc");
    assert_eq!(replace("", "x", "y"), "");
    assert_eq!(replace("héllo", "l", "ll"), "héllllo");
    assert_eq!(replace("abab", "ab", "abab"), "abababab");
    assert_eq!(replace("xabyabz", "ab", "-"), "x-y-z");
    assert_eq!(replace("ab", "ab", ""), "");
    assert_eq!(replace("éabü", "ab", "ö"), "éöü");
    assert_eq!(replace("aab", "ab", "c"), "ac");
    let chars = chars_of("abcab");
    assert!(matches_at(&chars, 0, &chars_of("ab")));
    assert!(matches_at(&chars, 3, &chars_of("ab")));
    assert!(!matches_at(&chars, 4, &chars_of("ab")));
    assert!(!matches_at(&chars, 1, &chars_of("ab")));
    assert!(matches_at(&chars, 5, &chars_of("")));
    assert!(!matches_at(&chars, 6, &chars_of("")));
    assert_eq!(replace("abc", "", "x"), "abc");
}

#[test]
fn texts_are_joined() {
    assert_eq!(concat2("ab", "cd"), "abcd");
    assert_eq!(concat2("", ""), "");
}
