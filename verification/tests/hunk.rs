use gg::hunk::{apply_hunk, apply_hunk_lines, try_apply_hunk, HunkError};
use gg::messages::{ChangeHunk, FileRange, HunkLocation, MultilineString};
use gg::text::{chars_of, decimal_string, split_lines, trimmed_end};

fn hunk(start: usize, lines: &[&str]) -> ChangeHunk {
    ChangeHunk {
        location: HunkLocation {
            from_file: FileRange { start, len: 0 },
            to_file: FileRange { start, len: 0 },
        },
        lines: MultilineString { lines: lines.iter().map(|s| s.to_string()).collect() },
    }
}

fn chars(s: &str) -> Vec<char> {
    s.chars().collect()
}

fn char_lines(v: &[&str]) -> Vec<Vec<char>> {
    v.iter().map(|s| chars(s)).collect()
}

#[test]
fn hunk_replaces_a_line() {
    let content = b"a\nb\nc\n";
    let h = hunk(2, &[" b", "-c", "+C"]);
    assert_eq!(apply_hunk(content, &h), Ok(b"a\nb\nC\n".to_vec()));
}

#[test]
fn hunk_keeps_lines_after_it() {
    let content = b"one\ntwo\nthree\nfour\n";
    let h = hunk(1, &["-one", "+uno"]);
    assert_eq!(apply_hunk(content, &h), Ok(b"uno\ntwo\nthree\nfour\n".to_vec()));
}

#[test]
fn hunk_start_zero_counts_as_first_line() {
    let h = hunk(0, &["+first"]);
    assert_eq!(apply_hunk(b"x\n", &h), Ok(b"first\nx\n".to_vec()));
}

#[test]
fn no_trailing_newline_is_added_when_content_had_none() {
    let h = hunk(1, &[" a", "+b"]);
    assert_eq!(apply_hunk(b"a", &h), Ok(b"a\nb".to_vec()));
}

#[test]
fn empty_result_gets_no_newline() {
    let h = hunk(1, &["-a"]);
    assert_eq!(apply_hunk(b"a\n", &h), Ok(Vec::new()));
}

#[test]
fn context_compared_without_trailing_white_space() {
    let h = hunk(1, &[" a", "+b"]);
    assert_eq!(apply_hunk(b"a \t\n", &h), Ok(b"a \t\nb\n".to_vec()));
}

#[test]
fn crlf_line_endings_become_lf() {
    let h = hunk(1, &[" a", "+b"]);
    assert_eq!(apply_hunk(b"a\r\nc\r\n", &h), Ok(b"a\nb\nc\n".to_vec()));
}

#[test]
fn added_line_loses_trailing_newlines() {
    let h = hunk(1, &["+x\n\n", " a"]);
    assert_eq!(apply_hunk(b"a\n", &h), Ok(b"x\na\n".to_vec()));
}

#[test]
fn invalid_utf8_is_decoded_lossily() {
    let h = hunk(1, &[" a\u{fffd}", "+b"]);
    assert_eq!(apply_hunk(b"a\xff\n", &h), Ok("a\u{fffd}\nb\n".as_bytes().to_vec()));
}

#[test]
fn mismatch_is_reported_with_index_and_trimmed_lines() {
    let h = hunk(2, &[" b", "-x  "]);
    assert_eq!(
        apply_hunk(b"a\nb\nc \n", &h),
        Err(HunkError::Mismatch {
            index: 2,
            expected: "x".to_string(),
            found: Some("c".to_string()),
        })
    );
}

#[test]
fn mismatch_past_end_of_content() {
    let h = hunk(1, &[" a", " b"]);
    assert_eq!(
        apply_hunk(b"a\n", &h),
        Err(HunkError::Mismatch { index: 1, expected: "b".to_string(), found: None })
    );
}

#[test]
fn malformed_hunk_line_is_rejected() {
    let h = hunk(1, &[" a", "?b"]);
    assert_eq!(apply_hunk(b"a\n", &h), Err(HunkError::Malformed { line: "?b".to_string() }));
    let h = hunk(1, &[""]);
    assert_eq!(apply_hunk(b"a\n", &h), Err(HunkError::Malformed { line: String::new() }));
}

#[test]
fn hunk_starting_past_the_end_is_not_applied() {
    let h = hunk(4, &["+x"]);
    assert_eq!(try_apply_hunk(b"a\nb\n", &h), None);
    let h = hunk(3, &["+x"]);
    assert_eq!(try_apply_hunk(b"a\nb\n", &h), Some(Ok(b"a\nb\nx\n".to_vec())));
}

#[test]
fn context_only_hunk_keeps_lines() {
    let base = char_lines(&["a", "b ", "c"]);
    let h = char_lines(&[" b ", " c"]);
    assert_eq!(apply_hunk_lines(&base, &h, 1), Ok(base.clone()));
}

#[test]
fn removed_lines_are_dropped() {
    let base = char_lines(&["a", "b", "c", "d"]);
    let h = char_lines(&["-b", "-c"]);
    assert_eq!(apply_hunk_lines(&base, &h, 1), Ok(char_lines(&["a", "d"])));
}

#[test]
fn added_lines_are_inserted() {
    let base = char_lines(&["a", "d"]);
    let h = char_lines(&["+b", "+c"]);
    assert_eq!(apply_hunk_lines(&base, &h, 1), Ok(char_lines(&["a", "b", "c", "d"])));
}

#[test]
fn trailing_newline_is_kept() {
    let h = hunk(1, &["-a", "+b"]);
    let out = apply_hunk(b"a\n", &h).unwrap();
    assert_eq!(out.last(), Some(&b'\n'));
}

#[test]
fn lines_split_like_str_lines() {
    for text in ["", "a", "a\n", "a\nb", "a\r\nb\r\n", "\n\n", "a\rb\r", "x\n\ny"] {
        let expected: Vec<Vec<char>> = text.lines().map(|l| l.chars().collect()).collect();
        assert_eq!(split_lines(&chars_of(text)), expected, "{:?}", text);
    }
}

#[test]
fn trimming_follows_str_trim_end() {
    for text in ["a \t", "a\u{a0}", "a\u{3000}\u{2028}", "a\u{200b}", "  ", "", "x\r\n", "b\u{85}\u{1680}"] {
        let v = chars_of(text);
        let end = trimmed_end(&v, 0);
        assert_eq!(end, text.trim_end().chars().count(), "{:?}", text);
    }
}

#[test]
fn hunk_error_messages() {
    let e = HunkError::Mismatch { index: 12, expected: "x".to_string(), found: Some("c".to_string()) };
    assert_eq!(
        e.message(),
        "Hunk mismatch: context/removed line does not match base content at index 12. Expected (trimmed): 'x', Found (trimmed): 'c'"
    );
    let e = HunkError::Mismatch { index: 0, expected: "b".to_string(), found: None };
    assert_eq!(
        e.message(),
        "Hunk mismatch: context/removed line does not match base content at index 0. Expected (trimmed): 'b', Found (trimmed): '<EOF>'"
    );
    assert_eq!(HunkError::Malformed { line: "?b".to_string() }.message(), "Malformed hunk line: ?b");
}

#[test]
fn decimal_strings() {
    assert_eq!(decimal_string(0), "0");
    assert_eq!(decimal_string(7), "7");
    assert_eq!(decimal_string(10), "10");
    assert_eq!(decimal_string(9876543210), "9876543210");
    assert_eq!(decimal_string(usize::MAX), usize::MAX.to_string());
}
