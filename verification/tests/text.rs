use isahc::parse::{
    begins_status, ends_head, find_byte, names_match, parse_header, parse_status, trim,
};
use isahc::text::{parse_u64, same_text};

#[test]
fn numbers_are_read() {
    assert_eq!(parse_u64("0"), Some(0));
    assert_eq!(parse_u64("5"), Some(5));
    assert_eq!(parse_u64("10000"), Some(10000));
    assert_eq!(parse_u64("007"), Some(7));
    assert_eq!(parse_u64("+42"), Some(42));
    assert_eq!(parse_u64("18446744073709551615"), Some(u64::MAX));
    assert_eq!(parse_u64("018446744073709551615"), Some(u64::MAX));
}

#[test]
fn what_is_no_number_is_refused() {
    assert_eq!(parse_u64(""), None);
    assert_eq!(parse_u64("+"), None);
    assert_eq!(parse_u64("-1"), None);
    assert_eq!(parse_u64("++1"), None);
    assert_eq!(parse_u64("1+"), None);
    assert_eq!(parse_u64(" 1"), None);
    assert_eq!(parse_u64("1 "), None);
    assert_eq!(parse_u64("12a"), None);
    assert_eq!(parse_u64("1.5"), None);
    assert_eq!(parse_u64("0x10"), None);
    assert_eq!(parse_u64("\u{663}"), None);
    assert_eq!(parse_u64("18446744073709551616"), None);
    assert_eq!(parse_u64("99999999999999999999999999"), None);
    assert_eq!(parse_u64("99999999999999999999999999x"), None);
}

#[test]
fn numbers_are_read_as_the_standard_library_reads_them() {
    for text in ["0", "+0", "1", "+9", "123456789", "-3", "", "+", "abc", "00", "4294967296"] {
        assert_eq!(parse_u64(text), text.parse::<u64>().ok(), "{:?}", text);
    }
}

#[test]
fn texts_are_compared() {
    assert!(same_text("GET", "GET"));
    assert!(!same_text("GET", "get"));
    assert!(!same_text("GET", "GETS"));
    assert!(same_text("", ""));
}

#[test]
fn end_of_the_head_is_told() {
    assert!(ends_head(b"\r\n"));
    assert!(ends_head(b"\n"));
    assert!(!ends_head(b""));
    assert!(!ends_head(b"\r"));
    assert!(!ends_head(b"\r\n\r\n"));
    assert!(!ends_head(b"a: b\r\n"));
}

#[test]
fn status_lines_are_read() {
    assert!(begins_status(b"HTTP/1.1 200 OK\r\n"));
    assert!(begins_status(b"HTTP/"));
    assert!(!begins_status(b"HTTP"));
    assert!(!begins_status(b"http/1.1 200 OK"));
    assert_eq!(parse_status(b"HTTP/1.1 200 OK\r\n"), Some(200));
    assert_eq!(parse_status(b"HTTP/1.0 404 Not Found\r\n"), Some(404));
    assert_eq!(parse_status(b"HTTP/2 301\r\n"), Some(301));
    assert_eq!(parse_status(b"HTTP/2 301"), Some(301));
    assert_eq!(parse_status(b"HTTP/1.1 099 Odd\r\n"), Some(99));
    assert_eq!(parse_status(b"HTTP/1.1 2000 OK\r\n"), None);
    assert_eq!(parse_status(b"HTTP/1.1 20 OK\r\n"), None);
    assert_eq!(parse_status(b"HTTP/1.1 20"), None);
    assert_eq!(parse_status(b"HTTP/1.1  200 OK\r\n"), None);
    assert_eq!(parse_status(b"HTTP/1.1"), None);
    assert_eq!(parse_status(b"HTTP/1.1 "), None);
    assert_eq!(parse_status(b"ICY 200 OK\r\n"), None);
    assert_eq!(parse_status(b""), None);
}

#[test]
fn bytes_are_found() {
    assert_eq!(find_byte(b"a:b:c", b':'), 1);
    assert_eq!(find_byte(b":", b':'), 0);
    assert_eq!(find_byte(b"abc", b':'), 3);
    assert_eq!(find_byte(b"", b':'), 0);
}

#[test]
fn white_space_is_trimmed() {
    assert_eq!(trim(b"  a b \r\n"), b"a b");
    assert_eq!(trim(b"a"), b"a");
    assert_eq!(trim(b"\t\ta\t"), b"a");
    assert_eq!(trim(b" \r\n\t "), b"");
    assert_eq!(trim(b""), b"");
}

#[test]
fn header_lines_are_read() {
    let (name, value) = parse_header(b"Content-Length: 5\r\n").unwrap();
    assert_eq!(name, b"Content-Length");
    assert_eq!(value, b"5");
    let (name, value) = parse_header(b"x:\r\n").unwrap();
    assert_eq!(name, b"x");
    assert_eq!(value, b"");
    let (name, value) = parse_header(b"date:  Mon, 1 Jan 2024 10:00:00 GMT  \r\n").unwrap();
    assert_eq!(name, b"date");
    assert_eq!(value, b"Mon, 1 Jan 2024 10:00:00 GMT");
    assert!(parse_header(b": 5\r\n").is_none());
    assert!(parse_header(b"no colon\r\n").is_none());
    assert!(parse_header(b"").is_none());
}

#[test]
fn names_are_compared_without_regard_to_case() {
    assert!(names_match(b"Location", b"location"));
    assert!(names_match(b"LOCATION", b"locAtion"));
    assert!(names_match(b"", b""));
    assert!(!names_match(b"location", b"locations"));
    assert!(!names_match(b"location", b"lacation"));
    assert!(!names_match(b"a[", b"a{"));
    assert!(!names_match(b"a@", b"a`"));
}
