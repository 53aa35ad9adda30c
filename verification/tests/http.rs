use fluxus::utils::http::is_valid_host;
use fluxus::utils::http_paths::get_root_path;
use fluxus::utils::http_responses::{format_decimal, http_bad_request, http_not_found};
use fluxus::utils::parsing::parse_number;

#[test]
fn valid_hosts() {
    assert!(is_valid_host(b"example.com"));
    assert!(is_valid_host(b""));
    assert!(!is_valid_host(b".example.com"));
    assert!(!is_valid_host(b"example.com."));
    assert!(!is_valid_host(b"."));
    assert!(!is_valid_host("exämple".as_bytes()));
}

#[test]
fn root_path_of_request_path() {
    assert_eq!(get_root_path(b"/abc/def?x"), Some(&b"abc"[..]));
    assert_eq!(get_root_path(b"/abc?x=1/y"), Some(&b"abc"[..]));
    assert_eq!(get_root_path(b"/"), Some(&b""[..]));
    assert_eq!(get_root_path(b"/?q"), Some(&b""[..]));
    assert_eq!(get_root_path(b"abc"), None);
    assert_eq!(get_root_path(b""), None);
}

#[test]
fn not_found_response_bytes() {
    let expected = "HTTP/1.1 404 Not Found\r\nConnection: close\r\nContent-Type: \
                    text/plain\r\nServer: Neogrok/1.2.3\r\nContent-Length: \
                    24\r\n\r\nNot found\r\nNeogrok/1.2.3";
    assert_eq!(http_not_found(b"1.2.3"), expected.as_bytes());
}

#[test]
fn bad_request_response_bytes() {
    let expected = "HTTP/1.1 400 Bad Request\r\nConnection: close\r\nContent-Type: \
                    text/plain\r\nServer: Neogrok/0.1.0\r\nContent-Length: \
                    25\r\n\r\nBad request\nNeogrok/0.1.0";
    assert_eq!(http_bad_request(b"0.1.0"), expected.as_bytes());
}

#[test]
fn decimal_formatting_reads_back() {
    assert_eq!(format_decimal(0), b"0");
    assert_eq!(format_decimal(1234567), b"1234567");
    for n in [0usize, 9, 10, 99, 100, 65535, usize::MAX] {
        assert_eq!(parse_number(&format_decimal(n)), Some(n as u64));
    }
}
