use catch_cli::text::{
    chars_of, drop_trailing_spaces, find_char, has_suffix,
    is_whitespace, matches_at, same_chars, skip_spaces, window_ends_with, window_starts_with,
};

fn cs(s: &str) -> Vec<char> {
    s.chars().collect()
}

#[test]
fn chars_of_a_text() {
    assert_eq!(chars_of("aé✓"), vec!['a', 'é', '✓']);
    assert!(chars_of("").is_empty());
}

#[test]
fn prefixes_suffixes_and_occurrences() {
    assert!(has_suffix(&cs("hello"), &cs("llo")));
    assert!(!has_suffix(&cs("hello"), &cs("hell")));
    assert!(has_suffix(&cs(""), &cs("")));
    assert!(matches_at(&cs("abcabc"), &cs("bc"), 4));
    assert!(!matches_at(&cs("abcabc"), &cs("bc"), 5));
    assert!(!matches_at(&cs("abc"), &cs("a"), 7));
    assert!(matches_at(&cs("abc"), &cs(""), 3));
    assert!(same_chars(&cs("ab"), &cs("ab")));
    assert!(!same_chars(&cs("ab"), &cs("abc")));
    assert!(!same_chars(&cs("ab"), &cs("aB")));
}

#[test]
fn white_space_is_what_unicode_says() {
    for code in 0u32..=0x3100 {
        if let Some(c) = char::from_u32(code) {
            assert_eq!(is_whitespace(c), c.is_whitespace(), "U+{code:04X}");
        }
    }
    assert!(!is_whitespace('\u{FEFF}'));
    assert!(!is_whitespace('\u{200B}'));
}

#[test]
fn windows_on_a_text() {
    let text = cs("  \t url = x \n");
    assert_eq!(skip_spaces(&text, 0, text.len()), 4);
    assert_eq!(drop_trailing_spaces(&text, 4, text.len()), 11);
    assert_eq!(skip_spaces(&text, 0, 2), 2);
    assert_eq!(drop_trailing_spaces(&text, 0, 3), 0);
    assert!(window_starts_with(&text, 4, 11, &cs("url = ")));
    assert!(!window_starts_with(&text, 4, 8, &cs("url = ")));
    assert!(window_ends_with(&text, 4, 11, &cs("= x")));
    assert!(!window_ends_with(&text, 4, 10, &cs("= x")));
    assert_eq!(find_char(&text, '=', 0, text.len()), 8);
    assert_eq!(find_char(&text, '=', 9, text.len()), text.len());
    assert_eq!(find_char(&text, 'u', 4, 4), 4);
}
