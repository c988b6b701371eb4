use smtp2tg::text::{
    char_is_whitespace, chars_of, has_prefix, has_prefix_folded, is_folded, same_text,
    string_of, strip_line_end_len, trim_chars, trim_end_len,
};

#[test]
fn chars_and_back() {
    let v = chars_of("h\u{e9}llo");
    assert_eq!(v, vec!['h', '\u{e9}', 'l', 'l', 'o']);
    assert_eq!(string_of(&v), "h\u{e9}llo");
    assert_eq!(string_of(&Vec::new()), "");
}

#[test]
fn whitespace_agrees_with_std() {
    let mut n: u32 = 0;
    while n <= 0x3100 {
        if let Some(c) = char::from_u32(n) {
            assert_eq!(char_is_whitespace(c), c.is_whitespace(), "code point {:x}", n);
        }
        n += 1;
    }
    assert!(!char_is_whitespace('\u{200B}'));
    assert!(!char_is_whitespace('\u{FEFF}'));
}

#[test]
fn trim_end_drops_trailing_white_space() {
    let v = chars_of("  abc \t\r\n");
    let n = trim_end_len(&v);
    assert_eq!(n, 5);
    assert_eq!(trim_end_len(&chars_of(" \n")), 0);
    assert_eq!(trim_end_len(&chars_of("")), 0);
}

#[test]
fn strip_line_end_drops_only_terminators() {
    assert_eq!(strip_line_end_len(&chars_of("QUIT\r\n")), 4);
    assert_eq!(strip_line_end_len(&chars_of("QUIT\n")), 4);
    assert_eq!(strip_line_end_len(&chars_of("QUIT")), 4);
    assert_eq!(strip_line_end_len(&chars_of("QUIT \r\n")), 5);
    assert_eq!(strip_line_end_len(&chars_of("\r\n")), 0);
}

#[test]
fn trim_drops_white_space_at_both_ends() {
    assert_eq!(string_of(&trim_chars(&chars_of("  a b \n"))), "a b");
    assert_eq!(string_of(&trim_chars(&chars_of(" \t "))), "");
    assert_eq!(string_of(&trim_chars(&chars_of("x"))), "x");
    for text in ["", " ", "a", " a", "a ", "\u{a0}a\u{3000}", "\n\na\nb\n\n"] {
        assert_eq!(string_of(&trim_chars(&chars_of(text))), text.trim());
    }
}

#[test]
fn prefix_is_case_sensitive() {
    assert!(has_prefix(&chars_of("EHLO there"), "EHLO"));
    assert!(has_prefix(&chars_of("EHLO"), "EHLO"));
    assert!(!has_prefix(&chars_of("ehlo"), "EHLO"));
    assert!(!has_prefix(&chars_of("EHL"), "EHLO"));
    assert!(has_prefix(&chars_of("anything"), ""));
}

#[test]
fn folded_prefix_ignores_ascii_case() {
    assert!(has_prefix_folded(&chars_of("SuBjEcT: x"), "subject:"));
    assert!(has_prefix_folded(&chars_of("subject:"), "subject:"));
    assert!(!has_prefix_folded(&chars_of("subject"), "subject:"));
    assert!(!has_prefix_folded(&chars_of("\u{17f}ubject: x"), "subject:"));
    assert!(!has_prefix_folded(&chars_of("Subject; x"), "subject:"));
}

#[test]
fn folded_equality_ignores_ascii_case() {
    assert!(is_folded(&chars_of("DATA"), "data"));
    assert!(is_folded(&chars_of("dAtA"), "data"));
    assert!(!is_folded(&chars_of("DATA "), "data"));
    assert!(!is_folded(&chars_of("DAT"), "data"));
    assert!(!is_folded(&chars_of("DBTA"), "data"));
}

#[test]
fn same_text_compares_whole_strings() {
    assert!(same_text("HTML", "HTML"));
    assert!(!same_text("HTML", "html"));
    assert!(!same_text("HTML5", "HTML"));
    assert!(!same_text("HTM", "HTML"));
    assert!(same_text("", ""));
}
