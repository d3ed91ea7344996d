use frost_tune::text::{class_holds, contains_token, CharClass};

#[test]
fn tokens_are_whole_words() {
    assert!(contains_token("FILTER 1: ON LSC FC 105 HZ", "LSC"));
    assert!(!contains_token("FILTER 1: ON LSCX FC 105 HZ", "LSC"));
    assert!(contains_token("HP", "HP"));
    assert!(!contains_token("HPF", "HP"));
    assert!(contains_token("A-B", "B"));
    assert!(contains_token("a  b", ""));
    assert!(!contains_token("ab", ""));
    assert!(contains_token("", ""));
}

#[test]
fn whitespace_class_matches_the_standard_library() {
    for u in 0u32..=0x10FFFF {
        if let Some(c) = char::from_u32(u) {
            assert_eq!(class_holds(CharClass::Whitespace, c), c.is_whitespace(), "U+{:04X}", u);
        }
    }
}
