use meowsn::text::{
    blank, char_at, crlf_line_breaks, is_white_space, push_decimal, remove_char, same_text,
    split_at_spaces, text_before, trim,
};

#[test]
fn trim_removes_white_space_at_both_ends() {
    assert_eq!(trim("  hello world \t\n"), "hello world");
    assert_eq!(trim("hello"), "hello");
    assert_eq!(trim(""), "");
    assert_eq!(trim(" \u{3000}x\u{a0}"), "x");
}

#[test]
fn trim_of_blank_text_is_empty() {
    assert_eq!(trim(" \t\r\n "), "");
}

#[test]
fn blank_is_true_exactly_when_trim_is_empty() {
    for text in ["", " ", "\t\n", "a", " a ", "\u{2003}"] {
        assert_eq!(blank(text), text.trim().is_empty());
    }
}

#[test]
fn white_space_matches_std() {
    for c in [' ', '\t', '\n', '\r', '\u{85}', '\u{a0}', '\u{2028}', '\u{3000}', 'a', '0', '\u{200b}'] {
        assert_eq!(is_white_space(c), c.is_whitespace());
    }
}

#[test]
fn char_at_reads_characters_not_bytes() {
    assert_eq!(char_at("héllo", 1), 'é');
    assert_eq!(char_at("héllo", 2), 'l');
}

#[test]
fn same_text_compares_contents() {
    assert!(same_text("abc", "abc"));
    assert!(!same_text("abc", "abd"));
    assert!(!same_text("abc", "ab"));
    assert!(same_text("", ""));
}

#[test]
fn text_before_follows_string_order() {
    let pairs = [("a", "b"), ("b", "a"), ("a", "ab"), ("ab", "a"), ("", "a"), ("a", "a"), ("Z", "a")];
    for (a, b) in pairs {
        assert_eq!(text_before(a, b), a.to_string() < b.to_string(), "{a} {b}");
    }
}

#[test]
fn push_decimal_appends_digits() {
    let mut s = String::from("n=");
    push_decimal(&mut s, 0);
    assert_eq!(s, "n=0");
    let mut s = String::new();
    push_decimal(&mut s, 1863);
    assert_eq!(s, "1863");
    let mut s = String::new();
    push_decimal(&mut s, u64::MAX);
    assert_eq!(s, u64::MAX.to_string());
}

#[test]
fn crlf_line_breaks_replaces_line_feeds() {
    assert_eq!(crlf_line_breaks("a\nb\n"), "a\r\nb\r\n");
    assert_eq!(crlf_line_breaks("no breaks"), "no breaks");
    assert_eq!(crlf_line_breaks(""), "");
}

#[test]
fn remove_char_removes_every_occurrence() {
    assert_eq!(remove_char("a-b-c", '-'), "abc");
    assert_eq!(remove_char("abc", '-'), "abc");
}

#[test]
fn remove_char_twice_is_once() {
    let once = remove_char("x.y..z", '.');
    assert_eq!(remove_char(&once, '.'), once);
}

#[test]
fn split_at_spaces_matches_str_split() {
    for text in ["hello world", " a  b ", "", "one", "visit https://example.com now"] {
        let expected: Vec<String> = text.split(" ").map(|w| w.to_string()).collect();
        assert_eq!(split_at_spaces(text), expected);
    }
}
