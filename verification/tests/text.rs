use gitp::text::{
    chars_of, is_whitespace, join_strings, parse_usize_chars, split_lines, split_words, str_contains,
    str_starts_with, trim_chars,
};

fn lines_of(s: &str) -> Vec<String> {
    split_lines(&chars_of(s)).iter().map(|l| l.iter().collect()).collect()
}

fn words_of(s: &str) -> Vec<String> {
    split_words(&chars_of(s)).iter().map(|w| w.iter().collect()).collect()
}

#[test]
fn whitespace_matches_std() {
    for u in 0u32..0x3100 {
        if let Some(c) = char::from_u32(u) {
            assert_eq!(is_whitespace(c), c.is_whitespace(), "char {u:#x}");
        }
    }
}

#[test]
fn lines_match_str_lines() {
    for s in ["", "a", "a\n", "\n", "a\nb", "a\r\nb\r\n", "a\rb\n\n", "x\n\ny\r", "\r\n\r\n"] {
        let expected: Vec<String> = s.lines().map(str::to_string).collect();
        assert_eq!(lines_of(s), expected, "input {s:?}");
    }
}

#[test]
fn words_match_split_whitespace() {
    for s in ["", "  ", "a", " a  b\tc\n", "3\t5\n", "x\u{3000}y", "\u{a0}z "] {
        let expected: Vec<String> = s.split_whitespace().map(str::to_string).collect();
        assert_eq!(words_of(s), expected, "input {s:?}");
    }
}

#[test]
fn trim_matches_std() {
    for s in ["", "  ", " main\n", "\tfeature/x  ", "a b"] {
        let t: String = trim_chars(&chars_of(s)).iter().collect();
        assert_eq!(t, s.trim());
    }
}

#[test]
fn parse_matches_std() {
    for s in ["0", "42", "+7", "", "+", "-1", "1a", "007", "18446744073709551615", "18446744073709551616", "++1"] {
        assert_eq!(parse_usize_chars(&chars_of(s)), s.parse::<usize>().ok(), "input {s:?}");
    }
}

#[test]
fn prefix_and_infix() {
    assert!(str_starts_with("!ls -la", "!"));
    assert!(!str_starts_with("ls", "!"));
    assert!(str_contains("Updating 1..2 Fast-forward", "Fast-forward"));
    assert!(str_contains("abc", ""));
    assert!(!str_contains("ab", "abc"));
}

#[test]
fn join_with_spaces() {
    let v = vec!["pull".to_string(), "--rebase".to_string()];
    assert_eq!(join_strings(&v, " "), "pull --rebase");
    assert_eq!(join_strings(&Vec::new(), " "), "");
}
