use muhenkan_switch::text::{
    contains, decimal, ends_with_ignore_case, eq_ignore_case, find_char, first_line, lower,
    matches_at, push_word, str_eq, strip_prefix, strip_suffix,
};

#[test]
fn equality_and_search() {
    assert!(str_eq("", ""));
    assert!(str_eq("abc", "abc"));
    assert!(!str_eq("abc", "abd"));
    assert!(!str_eq("abc", "ab"));
    assert!(str_eq("日本語", "日本語"));
    assert!(matches_at("hello", "ll", 2));
    assert!(!matches_at("hello", "ll", 3));
    assert!(matches_at("hello", "", 5));
    assert!(!matches_at("hello", "", 6));
    assert!(!matches_at("hello", "lo!", 3));
    assert!(matches_at("日本語", "本", 1));
    assert!(contains("https://e/?q={query}", "{query}"));
    assert!(!contains("https://e/?q={quer}", "{query}"));
    assert!(contains("abc", ""));
    assert!(contains("", ""));
    assert!(!contains("", "a"));
    assert!(contains("abc", "c"));
}

#[test]
fn prefixes_and_suffixes() {
    assert_eq!(strip_prefix("~/Documents", "~/"), Some("Documents"));
    assert_eq!(strip_prefix("~", "~/"), None);
    assert_eq!(strip_prefix("abc", ""), Some("abc"));
    assert_eq!(strip_prefix("abc", "abc"), Some(""));
    assert_eq!(strip_suffix("report_2024", "_2024"), Some("report"));
    assert_eq!(strip_suffix("report", "_2024"), None);
    assert_eq!(strip_suffix("x", "xx"), None);
    assert_eq!(strip_suffix("日本語", "語"), Some("日本"));
}

#[test]
fn first_lines() {
    assert_eq!(first_line(""), None);
    assert_eq!(first_line("abc"), Some("abc"));
    assert_eq!(first_line("abc\ndef"), Some("abc"));
    assert_eq!(first_line("abc\r\ndef"), Some("abc"));
    assert_eq!(first_line("\nabc"), Some(""));
    assert_eq!(first_line("\r\nabc"), Some(""));
    assert_eq!(first_line("abc\r"), Some("abc\r"));
    assert_eq!(first_line("a\rb\n"), Some("a\rb"));
    for text in ["", "abc", "abc\ndef", "abc\r\ndef", "\n", "\r\n", "abc\r", "a\r\r\nb"] {
        assert_eq!(first_line(text), text.lines().next());
    }
    assert_eq!(find_char("abc", 'c'), 2);
    assert_eq!(find_char("abc", 'x'), 3);
    assert_eq!(find_char("", 'x'), 0);
}

#[test]
fn case_is_ignored_for_ascii_letters() {
    assert_eq!(lower('A'), 'a');
    assert_eq!(lower('Z'), 'z');
    assert_eq!(lower('a'), 'a');
    assert_eq!(lower('['), '[');
    assert_eq!(lower('@'), '@');
    assert_eq!(lower('É'), 'É');
    for c in ['A', 'M', 'Z', 'a', 'z', '0', '@', '[', '`', '{', 'É', '語'] {
        assert_eq!(lower(c), c.to_ascii_lowercase());
    }
    assert!(eq_ignore_case("Explorer.EXE", "explorer.exe"));
    assert!(!eq_ignore_case("Explorer", "explorer.exe"));
    assert!(!eq_ignore_case("É", "é"));
    assert!(ends_with_ignore_case("run.CMD", ".cmd"));
    assert!(!ends_with_ignore_case("run.cmdx", ".cmd"));
    assert!(!ends_with_ignore_case("md", ".cmd"));
}

#[test]
fn decimal_numerals() {
    assert_eq!(decimal(0), "0");
    assert_eq!(decimal(7), "7");
    assert_eq!(decimal(10), "10");
    assert_eq!(decimal(1234567890), "1234567890");
    assert_eq!(decimal(u64::MAX), "18446744073709551615");
    for n in [0u64, 9, 10, 99, 100, 101, 4096, 999999] {
        assert_eq!(decimal(n), n.to_string());
    }
    let mut words = vec!["a".to_string()];
    push_word(&mut words, "b");
    assert_eq!(words, vec!["a", "b"]);
}
