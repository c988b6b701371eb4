use smtp2tg::extract::{extract, Capture};
use smtp2tg::text::chars_of;

fn lines(raw: &[&str]) -> Vec<String> {
    raw.iter().map(|l| l.to_string()).collect()
}

#[test]
fn block_without_blank_line_is_all_header() {
    let m = extract(&lines(&["hello", "world", "."]));
    assert_eq!(m.subject, "[No Subject]");
    assert_eq!(m.body, "");
}

#[test]
fn body_without_headers_follows_a_blank_line() {
    let m = extract(&lines(&["", "hello", "world", "."]));
    assert_eq!(m.subject, "[No Subject]");
    assert_eq!(m.body, "hello\nworld");
}

#[test]
fn subject_and_four_body_lines() {
    let raw: Vec<String> = "Subject: Test\n\nline1\nline2\nline3\nline4\n."
        .split('\n')
        .map(|l| l.to_string())
        .collect();
    let m = extract(&raw);
    assert_eq!(m.subject, "Test");
    assert_eq!(m.body, "line1\nline2\nline3\nline4");
}

#[test]
fn raw_lines_may_carry_their_terminators() {
    let m = extract(&lines(&["Subject: Hi\r\n", "\r\n", "body\r\n", ".\r\n", "ignored\r\n"]));
    assert_eq!(m.subject, "Hi");
    assert_eq!(m.body, "body");
}

#[test]
fn subject_name_is_matched_in_any_case() {
    let m = extract(&lines(&["From: a@b", "SUBJECT:   Spaced out  ", "", "x", "."]));
    assert_eq!(m.subject, "Spaced out");
    assert_eq!(m.body, "x");
}

#[test]
fn only_the_first_subject_line_counts() {
    let m = extract(&lines(&["Subject: first", "Subject: second", "", "."]));
    assert_eq!(m.subject, "first");
    let m = extract(&lines(&["Subject:", "Subject: second", "", "."]));
    assert_eq!(m.subject, "[No Subject]");
}

#[test]
fn subject_line_in_the_body_is_body() {
    let m = extract(&lines(&["", "Subject: late", "."]));
    assert_eq!(m.subject, "[No Subject]");
    assert_eq!(m.body, "Subject: late");
}

#[test]
fn body_keeps_inner_blank_lines_and_loses_outer_ones() {
    let m = extract(&lines(&["", "", "a", "", "b", "", "."]));
    assert_eq!(m.body, "a\n\nb");
}

#[test]
fn end_of_input_ends_the_block() {
    let m = extract(&lines(&["Subject: open", "", "no marker"]));
    assert_eq!(m.subject, "open");
    assert_eq!(m.body, "no marker");
    let m = extract(&lines(&[]));
    assert_eq!(m.subject, "[No Subject]");
    assert_eq!(m.body, "");
}

#[test]
fn a_line_with_more_than_a_dot_is_no_marker() {
    let m = extract(&lines(&["", "..", ". .", ".", "after"]));
    assert_eq!(m.body, "..\n. .");
}

#[test]
fn capture_feeds_line_by_line() {
    let mut c = Capture::new();
    assert!(c.in_headers);
    assert!(!c.feed(&chars_of("Subject: One\r\n")));
    assert_eq!(c.subject, Some(chars_of("One")));
    assert!(!c.feed(&chars_of("\r\n")));
    assert!(!c.in_headers);
    assert!(!c.feed(&chars_of("text  \r\n")));
    assert_eq!(c.body, chars_of("text\n"));
    let before = c.clone();
    assert!(c.feed(&chars_of(".\r\n")));
    assert_eq!(c, before);
    let m = c.finish();
    assert_eq!(m.subject, "One");
    assert_eq!(m.body, "text");
}
