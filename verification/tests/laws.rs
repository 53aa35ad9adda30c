use fluxus::utils::parsing::{
    is_chunked_transfer, parse_number, root_path, split3_spaces, split_key_value,
};

#[test]
fn key_value_rejoins_line() {
    let line = b"Content-Type: text/plain";
    let (key, value) = split_key_value(line).unwrap();
    let mut joined = key.to_vec();
    joined.push(b':');
    joined.extend_from_slice(value);
    assert_eq!(joined, line);
    assert!(!key.contains(&b':'));
}

#[test]
fn root_path_rejoins_path() {
    let path = b"endpoint/a/b";
    let (left, right) = root_path(path);
    let mut joined = left.to_vec();
    joined.push(b'/');
    joined.extend_from_slice(right);
    assert_eq!(joined, path);
}

#[test]
fn split3_lengths_cover_line() {
    let line = b"POST /upload/file HTTP/1.0";
    let (first, mid, rest) = split3_spaces(line).unwrap();
    assert_eq!(first + 1 + mid + 1 + rest, line.len());
    assert_eq!(&line[..first], b"POST");
    assert_eq!(&line[first + 1..first + 1 + mid], b"/upload/file");
    assert_eq!(&line[first + mid + 2..], b"HTTP/1.0");
}

#[test]
fn chunked_list_extends() {
    assert!(is_chunked_transfer(b"chunked"));
    assert!(is_chunked_transfer(b"chunked,gzip"));
    assert!(is_chunked_transfer(b"chunked,gzip, br"));
}

#[test]
fn nineteen_digits_fit() {
    assert_eq!(parse_number(b"9999999999999999999"), Some(9_999_999_999_999_999_999));
    assert_eq!(parse_number(b"999999999999999999x"), None);
}
