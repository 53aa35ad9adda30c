use fluxus::utils::parsing::{
    ascii_upper, case_insensitive_eq_left, is_chunked_transfer, is_chunked_val, parse_hex,
    parse_number, root_path, split3_spaces, split_key_value, strip_left_space,
};

#[test]
fn test_chunked_value() {
    assert!(is_chunked_val(b"chuNked"));
    assert!(is_chunked_val(b"chunKed, not-chunked, lol"));
    assert!(!is_chunked_val(b"NOOOOO, not-chunked, lol"));
}

#[test]
fn chunked_value_needs_comma_after_token() {
    assert!(!is_chunked_val(b"chunked "));
    assert!(!is_chunked_val(b"chunke"));
    assert!(is_chunked_val(b"CHUNKED,"));
    assert!(!is_chunked_val(b""));
}

#[test]
fn chunked_transfer_pieces() {
    assert!(is_chunked_transfer(b"chunked"));
    assert!(is_chunked_transfer(b"gzip, chunked"));
    assert!(is_chunked_transfer(b"ChUnKeD,gzip"));
    assert!(!is_chunked_transfer(b"gzip"));
    assert!(!is_chunked_transfer(b"gzip,  chunked"));
    assert!(!is_chunked_transfer(b"chunkedx"));
    assert!(!is_chunked_transfer(b""));
    assert!(!is_chunked_transfer(b","));
}

#[test]
fn ascii_upper_only_letters() {
    assert_eq!(ascii_upper(b'a'), b'A');
    assert_eq!(ascii_upper(b'z'), b'Z');
    assert_eq!(ascii_upper(b'A'), b'A');
    assert_eq!(ascii_upper(b'0'), b'0');
    assert_eq!(ascii_upper(b'{'), b'{');
    assert_eq!(ascii_upper(b'`'), b'`');
    assert_eq!(ascii_upper(0xe1), 0xe1);
    assert_eq!(ascii_upper(ascii_upper(b'q')), ascii_upper(b'q'));
}

#[test]
fn strip_one_left_space() {
    assert_eq!(strip_left_space(b"  x"), b" x");
    assert_eq!(strip_left_space(b"x "), b"x ");
    assert_eq!(strip_left_space(b""), b"");
}

#[test]
fn split_key_value_at_first_colon() {
    assert_eq!(split_key_value(b"Host: a:b"), Some((&b"Host"[..], &b" a:b"[..])));
    assert_eq!(split_key_value(b":"), Some((&b""[..], &b""[..])));
    assert_eq!(split_key_value(b"no colon"), None);
}

#[test]
fn root_path_at_first_slash() {
    assert_eq!(root_path(b"api/v1/x"), (&b"api"[..], &b"v1/x"[..]));
    assert_eq!(root_path(b"api"), (&b"api"[..], &b""[..]));
    assert_eq!(root_path(b"/x"), (&b""[..], &b"x"[..]));
}

#[test]
fn case_insensitive_left_side() {
    assert!(case_insensitive_eq_left(b"Content-Length", b"CONTENT-LENGTH"));
    assert!(!case_insensitive_eq_left(b"Content-Length", b"content-length"));
    assert!(!case_insensitive_eq_left(b"abc", b"ABCD"));
    assert!(case_insensitive_eq_left(b"", b""));
}

#[test]
fn split3_request_line() {
    assert_eq!(split3_spaces(b"GET /index HTTP/1.1"), Some((3, 6, 8)));
    assert_eq!(split3_spaces(b"a  b"), Some((1, 0, 1)));
    assert_eq!(split3_spaces(b"GET /index"), None);
    assert_eq!(split3_spaces(b"GET"), None);
}

#[test]
fn parse_decimal_numbers() {
    assert_eq!(parse_number(b"123"), Some(123));
    assert_eq!(parse_number(b""), Some(0));
    assert_eq!(parse_number(b"007"), Some(7));
    assert_eq!(parse_number(b"12a"), None);
    assert_eq!(parse_number(b"-1"), None);
    assert_eq!(parse_number(b"18446744073709551615"), Some(u64::MAX));
    assert_eq!(parse_number(b"000000000000000000001"), None);
    assert_eq!(parse_number(b"x9999999999999999999"), None);
}

#[test]
fn parse_hex_numbers() {
    assert_eq!(parse_hex(b"ff"), Some(255));
    assert_eq!(parse_hex(b"FFFFFFFF"), Some(u32::MAX));
    assert_eq!(parse_hex(b"1aB"), Some(0x1ab));
    assert_eq!(parse_hex(b""), Some(0));
    assert_eq!(parse_hex(b"100000000"), None);
    assert_eq!(parse_hex(b"fg"), None);
    assert_eq!(parse_hex(b"0x1"), None);
}
