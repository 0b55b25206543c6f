use eyebot::text::{contains, same_text, split, starts_with};

#[test]
fn prefix_and_substring() {
    assert!(starts_with("!ping x", "!ping"));
    assert!(starts_with("abc", ""));
    assert!(!starts_with("!pin", "!ping"));
    assert!(contains("scrambled eggs", "egg"));
    assert!(contains("x", ""));
    assert!(!contains("", "egg"));
    assert!(!contains("eg g", "egg"));
    assert!(contains("\u{1F95A}!", "\u{1F95A}"));
    assert!(same_text("a\u{e9}", "a\u{e9}"));
    assert!(!same_text("ab", "abc"));
}

#[test]
fn split_matches_std() {
    for s in ["", "a", "a b", " a  b ", "++", "x+y+z"] {
        for sep in [' ', '+'] {
            let expected: Vec<String> = s.split(sep).map(|p| p.to_string()).collect();
            assert_eq!(split(s, sep), expected);
        }
    }
}
