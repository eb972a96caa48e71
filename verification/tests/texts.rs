use lore_auth::text::{
    blank, contains, decimal, find, join, split_lines, split_words, starts_with, trim_end,
    trim_start,
};

#[test]
fn searching_matches_the_standard_library() {
    for (text, pattern) in [
        ("abcabc", "ca"),
        ("abc", ""),
        ("", ""),
        ("", "a"),
        ("aab", "ab"),
        ("\u{fc}ber", "ber"),
    ] {
        assert_eq!(contains(text, pattern), text.contains(pattern));
        assert_eq!(starts_with(text, pattern), text.starts_with(pattern));
        let chars = text.find(pattern).map(|at| text[..at].chars().count());
        assert_eq!(find(text, pattern), chars);
    }
}

#[test]
fn trimming_matches_the_standard_library() {
    for text in ["a//", "//", "", "a/b", "BearerBearer x", "Bearer Bearer x"] {
        assert_eq!(trim_end(text, '/'), text.trim_end_matches('/'));
        assert_eq!(trim_start(text, "Bearer "), text.trim_start_matches("Bearer "));
    }
    for text in ["", " ", "\t\r\n", "\u{2003}\u{3000}", " a ", "\u{200b}"] {
        assert_eq!(blank(text), text.trim().is_empty());
    }
}

#[test]
fn splitting_matches_the_standard_library() {
    for text in ["", " a  b ", "GET /x HTTP/1.1", "\u{85}a\u{a0}b", "one"] {
        let words: Vec<String> = text.split_whitespace().map(|word| word.to_string()).collect();
        assert_eq!(split_words(text), words);
    }
    for text in ["", "a", "a\n", "a\r\nb", "\n\n", "a\rb\n", "a\r\r\n", "a\r"] {
        let lines: Vec<String> = text.lines().map(|line| line.to_string()).collect();
        assert_eq!(split_lines(text), lines);
    }
}

#[test]
fn numbers_and_lists_are_written_plainly() {
    for n in [0, 9, 10, 65535, u64::MAX] {
        assert_eq!(decimal(n), n.to_string());
    }
    let parts = vec!["a".to_string(), "".to_string(), "c".to_string()];
    assert_eq!(join(&parts, ", "), parts.join(", "));
    assert_eq!(join(&vec![], ", "), "");
}
