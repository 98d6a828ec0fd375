use enterprise_http3::message::Http3Request;
use enterprise_http3::wire::{
    parse_headers_at, parse_request_headers, request_headers, response_headers, Header,
};
use std::time::{Duration, UNIX_EPOCH};

fn raw(name: &[u8], value: &[u8]) -> Header {
    Header { name: name.to_vec(), value: value.to_vec() }
}

fn pair(header: &Header) -> (&[u8], &[u8]) {
    (header.name.as_slice(), header.value.as_slice())
}

#[test]
fn a_request_is_sent_with_its_pseudo_headers_first() {
    let request = Http3Request::new("GET".to_string(), "/a?b=c".to_string())
        .with_header("x-one".to_string(), "1".to_string())
        .with_header("x-two".to_string(), "二".to_string());
    let headers = request_headers(&request);
    assert_eq!(headers.len(), 6);
    assert_eq!(pair(&headers[0]), (&b":method"[..], &b"GET"[..]));
    assert_eq!(pair(&headers[1]), (&b":scheme"[..], &b"https"[..]));
    assert_eq!(pair(&headers[2]), (&b":authority"[..], &b"localhost"[..]));
    assert_eq!(pair(&headers[3]), (&b":path"[..], &b"/a?b=c"[..]));
    assert_eq!(pair(&headers[4]), (&b"x-one"[..], &b"1"[..]));
    assert_eq!(pair(&headers[5]), (&b"x-two"[..], "二".as_bytes()));
}

#[test]
fn a_response_is_sent_with_status_and_type() {
    let headers = response_headers(404);
    assert_eq!(headers.len(), 2);
    assert_eq!(pair(&headers[0]), (&b":status"[..], &b"404"[..]));
    assert_eq!(pair(&headers[1]), (&b"content-type"[..], &b"application/json"[..]));
}

#[test]
fn a_header_is_made_from_text() {
    let header = Header::from_text("n", "é");
    assert_eq!(pair(&header), (&b"n"[..], &[0xc3u8, 0xa9][..]));
}

#[test]
fn a_received_request_is_the_one_sent() {
    let sent = Http3Request::new("POST".to_string(), "/路径".to_string())
        .with_header("accept".to_string(), "*/*".to_string())
        .with_header("x-name".to_string(), "名字".to_string());
    let received = parse_request_headers(request_headers(&sent));
    assert_eq!(received.method, sent.method);
    assert_eq!(received.scheme, sent.scheme);
    assert_eq!(received.authority, sent.authority);
    assert_eq!(received.path, sent.path);
    assert_eq!(received.headers.len(), 2);
    assert_eq!(received.headers.get("accept").unwrap(), "*/*");
    assert_eq!(received.headers.get("x-name").unwrap(), "名字");
    assert!(received.body.is_none());
}

#[test]
fn a_header_named_like_a_pseudo_header_replaces_it() {
    let sent = Http3Request::new("GET".to_string(), "/".to_string())
        .with_header(":method".to_string(), "PUT".to_string());
    let received = parse_request_headers(request_headers(&sent));
    assert_eq!(received.method, "PUT");
    assert_eq!(received.headers.len(), 0);
}

#[test]
fn missing_parts_are_empty() {
    let received = parse_request_headers(vec![]);
    assert_eq!(received.method, "");
    assert_eq!(received.scheme, "");
    assert_eq!(received.authority, "");
    assert_eq!(received.path, "");
    assert_eq!(received.headers.len(), 0);
}

#[test]
fn the_last_of_several_fields_counts() {
    let received = parse_request_headers(vec![
        raw(b":path", b"/first"),
        raw(b"a", b"1"),
        raw(b":path", b"/last"),
        raw(b"b", b"2"),
        raw(b"a", b"3"),
    ]);
    assert_eq!(received.path, "/last");
    assert_eq!(received.headers.len(), 2);
    assert_eq!(received.headers.get("a").unwrap(), "3");
    assert_eq!(received.headers.get("b").unwrap(), "2");
}

#[test]
fn what_is_not_utf8_is_replaced() {
    let received = parse_request_headers(vec![
        raw(b":method", &[0x47, 0xff, 0x54]),
        raw(&[0x6e, 0x80], &[0xe4, 0xbd]),
    ]);
    assert_eq!(received.method, "G\u{fffd}T");
    assert_eq!(received.headers.get("n\u{fffd}").unwrap(), "\u{fffd}");
}

#[test]
fn other_pseudo_headers_are_kept_as_fields() {
    let received = parse_request_headers(vec![raw(b":protocol", b"x"), raw(b":METHOD", b"GET")]);
    assert_eq!(received.method, "");
    assert_eq!(received.headers.get(":protocol").unwrap(), "x");
    assert_eq!(received.headers.get(":METHOD").unwrap(), "GET");
}

#[test]
fn a_request_carries_the_time_of_its_receipt() {
    let time = UNIX_EPOCH + Duration::from_secs(77);
    let received = parse_headers_at(&vec![raw(b":scheme", b"https")], time);
    assert_eq!(received.timestamp, time);
    assert_eq!(received.scheme, "https");
}

#[test]
fn a_broken_pseudo_header_is_no_pseudo_header() {
    let received = parse_request_headers(vec![
        raw(b":method\xff", b"PUT"),
        raw(&[0xff], b"x"),
        raw(b":method", b"GET"),
    ]);
    assert_eq!(received.method, "GET");
    assert_eq!(received.headers.len(), 2);
    assert_eq!(received.headers.get(":method\u{fffd}").unwrap(), "PUT");
    for name in [":method", ":scheme", ":authority", ":path"] {
        assert!(!received.headers.contains_key(name));
    }
}
