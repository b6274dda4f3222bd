use idswitch::text::{parse_usize, str_contains, trim_line, usize_to_string};

#[test]
fn numerals_render_without_leading_zeros() {
    assert_eq!(usize_to_string(0), "0");
    assert_eq!(usize_to_string(7), "7");
    assert_eq!(usize_to_string(10), "10");
    assert_eq!(usize_to_string(42), "42");
    assert_eq!(usize_to_string(1009), "1009");
}

#[test]
fn parse_reads_plain_digit_strings() {
    assert_eq!(parse_usize("1"), Some(1));
    assert_eq!(parse_usize("007"), Some(7));
    assert_eq!(parse_usize("1009"), Some(1009));
}

#[test]
fn parse_rejects_everything_else() {
    assert_eq!(parse_usize(""), None);
    assert_eq!(parse_usize("abc"), None);
    assert_eq!(parse_usize("1a"), None);
    assert_eq!(parse_usize("-1"), None);
    assert_eq!(parse_usize("+1"), None);
    assert_eq!(parse_usize(" 1"), None);
    assert_eq!(parse_usize("99999999999999999999999999"), None);
}

#[test]
fn rendering_then_parsing_is_identity() {
    for n in [0usize, 1, 9, 10, 99, 100, 12345] {
        assert_eq!(parse_usize(&usize_to_string(n)), Some(n));
    }
}

#[test]
fn trim_removes_exactly_one_terminator() {
    assert_eq!(trim_line("1\n"), "1");
    assert_eq!(trim_line("1\r\n"), "1");
    assert_eq!(trim_line("1"), "1");
    assert_eq!(trim_line("1\n\n"), "1\n");
    assert_eq!(trim_line(""), "");
    assert_eq!(trim_line("\n"), "");
    assert_eq!(trim_line("1 "), "1 ");
}

#[test]
fn substring_search_finds_the_marker() {
    assert!(str_contains("git version 2.39.2", "git version"));
    assert!(str_contains("git version", "git version"));
    assert!(!str_contains("git versio", "git version"));
    assert!(!str_contains("", "git version"));
    assert!(str_contains("anything", ""));
    assert!(!str_contains("GIT VERSION 2", "git version"));
}
