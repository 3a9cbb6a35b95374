use yourcloud_client::text::{
    chars_of, concat2, concat3, contains_adjacent, contains_char, decimal_text, same, starts_with, trim,
};

#[test]
fn characters_come_in_order() {
    assert_eq!(chars_of("aé€😀"), vec!['a', 'é', '€', '😀']);
    assert!(chars_of("").is_empty());
}

#[test]
fn characters_are_found() {
    assert!(contains_char("a/b", '/'));
    assert!(!contains_char("ab", '/'));
    assert!(!contains_char("", '/'));
}

#[test]
fn adjacent_characters_are_found() {
    assert!(contains_adjacent("a..b", '.', '.'));
    assert!(contains_adjacent("..", '.', '.'));
    assert!(!contains_adjacent(".a.", '.', '.'));
    assert!(!contains_adjacent(".", '.', '.'));
    assert!(!contains_adjacent("", '.', '.'));
}

#[test]
fn prefixes_are_recognised() {
    for (s, p) in [("wss://x", "wss://"), ("ws://x", "wss://"), ("", ""), ("a", ""), ("", "a"), ("ab", "abc")] {
        assert_eq!(starts_with(s, p), s.starts_with(p), "{} {}", s, p);
    }
}

#[test]
fn texts_are_compared() {
    assert!(same("AUTH", "AUTH"));
    assert!(!same("AUTH", "AUT"));
    assert!(!same("AUTH", "auth"));
    assert!(same("", ""));
}

#[test]
fn texts_are_concatenated() {
    assert_eq!(concat2("a", "b"), "ab");
    assert_eq!(concat3("a", "", "c"), "ac");
}

#[test]
fn numbers_are_written_in_base_ten() {
    for n in [0u64, 7, 9, 10, 11, 99, 100, 1_000_000, 1_073_741_824, u64::MAX] {
        assert_eq!(decimal_text(n), format!("{}", n));
    }
}

#[test]
fn white_space_is_trimmed_at_both_ends() {
    for s in ["", " ", "a", " a", "a ", "\t a b \r\n", "\u{3000}é\u{a0}", "\n", "no space", "  \n  "] {
        assert_eq!(trim(s), s.trim(), "{:?}", s);
    }
}

#[test]
fn exactly_the_white_space_of_unicode_is_trimmed() {
    let listed = |c: char| {
        matches!(
            c,
            '\u{9}'..='\u{d}'
                | ' '
                | '\u{85}'
                | '\u{a0}'
                | '\u{1680}'
                | '\u{2000}'..='\u{200a}'
                | '\u{2028}'
                | '\u{2029}'
                | '\u{202f}'
                | '\u{205f}'
                | '\u{3000}'
        )
    };
    for c in '\u{0}'..=char::MAX {
        let s = c.to_string();
        assert_eq!(trim(&s), if listed(c) { String::new() } else { s.clone() }, "{:?}", c);
    }
}
