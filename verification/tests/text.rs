use grove::text::{
    contains, lines_of, lines_with_prefix, parse_u16, push_decimal, push_signed, same_text,
    shell_quote, split_whitespace, starts_with, trim,
};

#[test]
fn trim_removes_unicode_white_space_at_both_ends() {
    assert_eq!(trim("  \t bash\n"), "bash");
    assert_eq!(trim("\u{a0}\u{3000}x y\u{2009}"), "x y");
    assert_eq!(trim(" \n\t "), "");
    assert_eq!(trim(""), "");
    assert_eq!(trim("abc"), "abc");
}

#[test]
fn split_whitespace_gives_the_words() {
    assert_eq!(split_whitespace("  120   40\n"), vec!["120", "40"]);
    assert_eq!(split_whitespace(""), Vec::<String>::new());
    assert_eq!(split_whitespace(" \t\n"), Vec::<String>::new());
    assert_eq!(split_whitespace("a\u{3000}b"), vec!["a", "b"]);
    assert_eq!(split_whitespace("one"), vec!["one"]);
}

#[test]
fn lines_follow_str_lines() {
    assert_eq!(lines_of("a\nb\r\nc"), vec!["a", "b", "c"]);
    assert_eq!(lines_of("a\n"), vec!["a"]);
    assert_eq!(lines_of("\n\n"), vec!["", ""]);
    assert_eq!(lines_of(""), Vec::<String>::new());
    assert_eq!(lines_of("x\r"), vec!["x\r"]);
    let s = "one\r\ntwo\nthree\r";
    let expected: Vec<String> = s.lines().map(String::from).collect();
    assert_eq!(lines_of(s), expected);
}

#[test]
fn lines_with_prefix_keeps_matching_lines_in_order() {
    assert_eq!(
        lines_with_prefix("grove-a\nother\ngrove-b\r\n", "grove-"),
        vec!["grove-a", "grove-b"]
    );
    assert_eq!(lines_with_prefix("", "grove-"), Vec::<String>::new());
}

#[test]
fn contains_and_starts_with() {
    assert!(contains("error: no current window", "no current window"));
    assert!(!contains("no current", "no current window"));
    assert!(contains("abc", ""));
    assert!(starts_with("grove-1", "grove-"));
    assert!(!starts_with("grov", "grove-"));
    assert!(same_text("héllo", "héllo"));
    assert!(!same_text("a", "b"));
}

#[test]
fn parse_u16_matches_std() {
    for s in ["80", "+24", "0", "65535", "65536", "", "+", "-1", "12a", " 1", "007", "٣"] {
        assert_eq!(parse_u16(s), s.parse::<u16>().ok(), "input {:?}", s);
    }
}

#[test]
fn decimal_formatting_matches_display() {
    let mut s = String::new();
    push_decimal(&mut s, 0);
    s.push(' ');
    push_decimal(&mut s, 1234567890);
    s.push(' ');
    push_signed(&mut s, -42);
    s.push(' ');
    push_signed(&mut s, i64::MIN);
    assert_eq!(s, format!("0 1234567890 -42 {}", i64::MIN));
}

#[test]
fn shell_quote_wraps_and_escapes_quotes() {
    assert_eq!(shell_quote("abc"), "'abc'");
    assert_eq!(shell_quote(""), "''");
    assert_eq!(shell_quote("it's"), "'it'\\''s'");
    assert_eq!(shell_quote("'"), "''\\'''");
    assert_eq!(shell_quote("a b; rm -rf /"), "'a b; rm -rf /'");
}
