use matrix_client::token::{extract_token, extract_token_str};

#[test]
fn request_line_with_token_extracts_it() {
    let r = extract_token_str("GET /?loginToken=t HTTP/1.1");
    assert_eq!(r, Some("t".to_string()));
}

#[test]
fn full_request_buffer_extracts_token() {
    let buf = b"GET /?loginToken=abc123 HTTP/1.1\r\nHost: localhost\r\n\r\n";
    assert_eq!(extract_token(buf), Some("abc123".to_string()));
}

#[test]
fn favicon_probe_finds_no_token() {
    let buf = b"GET /favicon.ico HTTP/1.1\r\n\r\n";
    assert_eq!(extract_token(buf), None);
}

#[test]
fn empty_token_is_no_token() {
    assert_eq!(extract_token(b"GET /?loginToken= HTTP/1.1"), None);
    assert_eq!(extract_token_str("GET /?loginToken= HTTP/1.1"), None);
}

#[test]
fn empty_and_malformed_buffers_find_no_token() {
    assert_eq!(extract_token(b""), None);
    assert_eq!(extract_token(b"   \r\n  "), None);
    assert_eq!(extract_token(b"GET"), None);
    assert_eq!(extract_token(b"GET / HTTP/1.1\r\n\r\n"), None);
    assert_eq!(extract_token(b"OPTIONS * HTTP/1.1\r\n\r\n"), None);
}

#[test]
fn invalid_utf8_is_tolerated_not_fatal() {
    assert_eq!(extract_token(&[0xff, 0xfe, 0x00, 0x41]), None);
    let mut buf = b"GET /?loginToken=ok HTTP/1.1\r\n\r\n".to_vec();
    buf.push(0xff);
    assert_eq!(extract_token(&buf), Some("ok".to_string()));
}

#[test]
fn non_ascii_token_survives_decoding() {
    let buf = "GET /?loginToken=caf\u{e9} HTTP/1.1\r\n\r\n".as_bytes();
    assert_eq!(extract_token(buf), Some("caf\u{e9}".to_string()));
}

#[test]
fn target_without_prefix_finds_no_token() {
    assert_eq!(extract_token(b"GET /?logintoken=abc HTTP/1.1"), None);
    assert_eq!(extract_token(b"GET /login?token=abc HTTP/1.1"), None);
}
