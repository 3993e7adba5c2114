use rust_analyzer_mcp::lsp::framing::{content_length_header, read_header_line, HeaderLine};
use rust_analyzer_mcp::text::{
    chars_of, contains_chars, has_prefix, has_suffix, join_strings, parse_decimal, str_eq,
    string_from_chars, trim_chars, u64_to_decimal,
};

#[test]
fn decimal_text_of_numbers() {
    assert_eq!(u64_to_decimal(0), "0");
    assert_eq!(u64_to_decimal(42), "42");
    assert_eq!(u64_to_decimal(u64::MAX), "18446744073709551615");
}

#[test]
fn decimal_text_reads_back() {
    for n in [0u64, 7, 10, 1000, 123456789, u64::MAX] {
        let t = u64_to_decimal(n);
        let cs = chars_of(&t);
        assert_eq!(parse_decimal(&cs, u64::MAX), Some(n));
    }
}

#[test]
fn parse_decimal_refuses_bad_text() {
    assert_eq!(parse_decimal(&chars_of(""), 100), None);
    assert_eq!(parse_decimal(&chars_of("12a"), 100), None);
    assert_eq!(parse_decimal(&chars_of("101"), 100), None);
    assert_eq!(parse_decimal(&chars_of("100"), 100), Some(100));
}

#[test]
fn trim_removes_unicode_whitespace() {
    let t = trim_chars(&chars_of("\u{3000} \t abc d \r\n"));
    assert_eq!(string_from_chars(&t), "abc d");
    assert_eq!(string_from_chars(&trim_chars(&chars_of("   "))), "");
}

#[test]
fn prefix_suffix_and_contains() {
    let s = chars_of("rust-analyzer.exe");
    assert!(has_prefix(&s, &chars_of("rust")));
    assert!(!has_prefix(&s, &chars_of("analyzer")));
    assert!(has_suffix(&s, &chars_of(".exe")));
    assert!(contains_chars(&s, &chars_of("analyzer")));
    assert!(!contains_chars(&s, &chars_of("zzz")));
    assert!(contains_chars(&s, &chars_of("")));
}

#[test]
fn string_equality() {
    assert!(str_eq("abc", "abc"));
    assert!(!str_eq("abc", "abd"));
    assert!(!str_eq("abc", "ab"));
}

#[test]
fn joining_parts() {
    let parts = vec!["a".to_string(), "b".to_string(), "c".to_string()];
    assert_eq!(join_strings(&parts, ", "), "a, b, c");
    assert_eq!(join_strings(&[], "\n"), "");
    assert_eq!(join_strings(&["x".to_string()], "\n"), "x");
}

#[test]
fn header_of_a_body() {
    assert_eq!(content_length_header(42), "Content-Length: 42\r\n\r\n");
    assert_eq!(content_length_header(0), "Content-Length: 0\r\n\r\n");
}

#[test]
fn header_lines_are_read() {
    assert_eq!(read_header_line("Content-Length: 42\r\n"), HeaderLine::Length(42));
    assert_eq!(read_header_line("Content-Length:7"), HeaderLine::Length(7));
    assert_eq!(read_header_line("Content-Type: application/json\r\n"), HeaderLine::NotHeader);
    assert_eq!(read_header_line("\r\n"), HeaderLine::NotHeader);
    assert_eq!(read_header_line("Content-Length: abc\r\n"), HeaderLine::Invalid);
    assert_eq!(read_header_line("Content-Length: \r\n"), HeaderLine::Invalid);
}

#[test]
fn header_written_reads_back() {
    for n in [0usize, 1, 99, 65536, 123456] {
        let h = content_length_header(n);
        let line = &h[..h.len() - 2];
        assert_eq!(read_header_line(line), HeaderLine::Length(n));
    }
}
