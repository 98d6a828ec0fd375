use bytes::Bytes;
use enterprise_http3::body::{share_body, text_body};
use enterprise_http3::clock::{
    current_date, date_text, read_time, second_of, FIRST_DATE, LAST_DATE,
};
use enterprise_http3::headers::HeaderMap;
use enterprise_http3::message::{Http3Request, Http3Response};
use enterprise_http3::text::{bytes_equal, decimal_text, join, text_equal};
use std::time::{Duration, SystemTime, UNIX_EPOCH};

fn header<'a>(response: &'a Http3Response, name: &str) -> &'a str {
    response.headers.get(name).unwrap().as_str()
}

#[test]
fn decimals_are_written_without_leading_zeros() {
    assert_eq!(decimal_text(0), "0");
    assert_eq!(decimal_text(7), "7");
    assert_eq!(decimal_text(10), "10");
    assert_eq!(decimal_text(404), "404");
    assert_eq!(decimal_text(1_000_000), "1000000");
    assert_eq!(decimal_text(u64::MAX), "18446744073709551615");
}

#[test]
fn decimals_read_back() {
    for n in [0u64, 9, 10, 99, 100, 65_535, u64::MAX] {
        assert_eq!(decimal_text(n).parse::<u64>().unwrap(), n);
    }
}

#[test]
fn texts_are_joined_and_compared() {
    assert_eq!(join("", ""), "");
    assert_eq!(join("错误: ", "x"), "错误: x");
    assert!(text_equal("问候", "问候"));
    assert!(!text_equal("问候", "问"));
    assert!(!text_equal("a", "b"));
    assert!(bytes_equal(b"", b""));
    assert!(!bytes_equal(b"ab", b"ac"));
}

#[test]
fn header_names_are_kept_once_in_order() {
    let mut map = HeaderMap::new();
    assert_eq!(map.len(), 0);
    assert!(map.get("a").is_none());
    map.insert("a".to_string(), "1".to_string());
    map.insert("b".to_string(), "2".to_string());
    map.insert("a".to_string(), "3".to_string());
    assert_eq!(map.len(), 2);
    assert_eq!(map.entry(0).0, "a");
    assert_eq!(map.entry(0).1, "3");
    assert_eq!(map.entry(1).0, "b");
    assert_eq!(map.entry(1).1, "2");
    assert!(map.contains_key("b"));
    assert!(!map.contains_key("B"));
    let copy = map.clone();
    map.insert("c".to_string(), "4".to_string());
    assert_eq!(copy.len(), 2);
    assert_eq!(copy.get("a").unwrap(), "3");
}

#[test]
fn a_new_request_goes_to_localhost() {
    let before = SystemTime::now();
    let request = Http3Request::new("GET".to_string(), "/index".to_string());
    let after = SystemTime::now();
    assert_eq!(request.method, "GET");
    assert_eq!(request.scheme, "https");
    assert_eq!(request.authority, "localhost");
    assert_eq!(request.path, "/index");
    assert_eq!(request.headers.len(), 0);
    assert!(request.body.is_none());
    assert!(before <= request.timestamp && request.timestamp <= after);
}

#[test]
fn a_request_is_built_step_by_step() {
    let time = UNIX_EPOCH + Duration::from_secs(5);
    let request = Http3Request::made_at("POST".to_string(), "/".to_string(), time)
        .with_header("accept".to_string(), "text/plain".to_string())
        .with_header("accept".to_string(), "*/*".to_string())
        .with_body(Bytes::from_static(b"body"));
    assert_eq!(request.headers.len(), 1);
    assert_eq!(request.headers.get("accept").unwrap(), "*/*");
    assert_eq!(request.body.as_ref().unwrap().as_ref(), b"body");
    assert_eq!(request.timestamp, time);
    let copy = request.clone();
    assert_eq!(copy.method, "POST");
    assert_eq!(copy.headers.get("accept").unwrap(), "*/*");
    assert_eq!(copy.body.unwrap().as_ref(), b"body");
    assert_eq!(copy.timestamp, time);
}

#[test]
fn a_new_response_names_server_and_date() {
    let response = Http3Response::new(204);
    assert_eq!(response.status, 204);
    assert_eq!(response.headers.len(), 2);
    assert_eq!(header(&response, "server"), "Enterprise-HTTP3-Server/1.0");
    assert!(header(&response, "date").ends_with(" +0000"));
    assert!(response.body.is_none());
}

#[test]
fn a_dated_response_carries_its_date() {
    let time = UNIX_EPOCH + Duration::from_secs(9);
    let response = Http3Response::dated(500, date_text(0), time);
    assert_eq!(response.status, 500);
    assert_eq!(header(&response, "date"), "Thu, 1 Jan 1970 00:00:00 +0000");
    assert_eq!(response.timestamp, time);
}

#[test]
fn a_body_brings_its_length() {
    let response = Http3Response::new(200).with_body(Bytes::from_static(b"0123456789"));
    assert_eq!(header(&response, "content-length"), "10");
    assert_eq!(response.body.as_ref().unwrap().as_ref(), b"0123456789");
    let shorter = response.with_body(Bytes::new());
    assert_eq!(header(&shorter, "content-length"), "0");
    assert_eq!(shorter.headers.len(), 3);
}

#[test]
fn json_response_describes_its_body() {
    let response = Http3Response::json(201, "{\"问\":1}");
    assert_eq!(response.status, 201);
    assert_eq!(response.headers.len(), 4);
    assert_eq!(header(&response, "server"), "Enterprise-HTTP3-Server/1.0");
    assert_eq!(header(&response, "content-type"), "application/json");
    assert_eq!(header(&response, "content-length"), "9");
    assert_eq!(response.body.unwrap().as_ref(), "{\"问\":1}".as_bytes());
}

#[test]
fn json_can_be_set_on_a_response() {
    let time = UNIX_EPOCH;
    let response = Http3Response::dated(200, "today".to_string(), time).with_json("[]");
    assert_eq!(header(&response, "content-length"), "2");
    assert_eq!(header(&response, "date"), "today");
    assert_eq!(response.body.unwrap().as_ref(), b"[]");
}

#[test]
fn text_sets_no_length() {
    let response = Http3Response::new(200).text("你好");
    assert_eq!(header(&response, "content-type"), "text/plain; charset=utf-8");
    assert!(response.headers.get("content-length").is_none());
    assert_eq!(response.body.unwrap().as_ref(), "你好".as_bytes());
}

#[test]
fn text_keeps_an_earlier_length() {
    let response = Http3Response::json(200, "{}").text("longer");
    assert_eq!(header(&response, "content-length"), "2");
    assert_eq!(header(&response, "content-type"), "text/plain; charset=utf-8");
}

#[test]
fn the_order_of_different_headers_does_not_matter() {
    let one = Http3Response::new(200)
        .with_header("x".to_string(), "1".to_string())
        .with_header("y".to_string(), "2".to_string());
    let other = Http3Response::new(200)
        .with_header("y".to_string(), "2".to_string())
        .with_header("x".to_string(), "1".to_string());
    assert_eq!(one.headers.get("x"), other.headers.get("x"));
    assert_eq!(one.headers.get("y"), other.headers.get("y"));
    assert_eq!(one.headers.len(), other.headers.len());
    let copy = one.clone();
    assert_eq!(copy.status, 200);
    assert_eq!(copy.headers.get("x"), one.headers.get("x"));
    assert_eq!(copy.timestamp, one.timestamp);
}

#[test]
fn dates_are_written_as_in_mail() {
    assert_eq!(date_text(0), "Thu, 1 Jan 1970 00:00:00 +0000");
    assert_eq!(date_text(-1), "Wed, 31 Dec 1969 23:59:59 +0000");
    assert_eq!(date_text(951_782_400), "Tue, 29 Feb 2000 00:00:00 +0000");
    assert_eq!(date_text(1_700_000_000), "Tue, 14 Nov 2023 22:13:20 +0000");
}

#[test]
fn dates_outside_the_calendar_are_moved_into_it() {
    assert_eq!(date_text(LAST_DATE), "Fri, 31 Dec 9999 23:59:59 +0000");
    assert_eq!(date_text(LAST_DATE + 1), date_text(LAST_DATE));
    assert_eq!(date_text(i64::MAX), date_text(LAST_DATE));
    assert_eq!(date_text(FIRST_DATE), "Sat, 1 Jan 0000 00:00:00 +0000");
    assert_eq!(date_text(FIRST_DATE - 1), date_text(FIRST_DATE));
    assert_eq!(date_text(i64::MIN), date_text(FIRST_DATE));
}

#[test]
fn the_current_date_is_that_of_the_current_second() {
    let (seconds, date) = current_date();
    assert_eq!(date, date_text(seconds));
    let clock = SystemTime::now().duration_since(UNIX_EPOCH).unwrap().as_secs() as i64;
    assert!((clock - seconds).abs() <= 5);
}

#[test]
fn a_body_holds_its_text_and_can_be_shared() {
    let body = text_body("aé");
    assert_eq!(body.as_ref(), &[0x61, 0xc3, 0xa9]);
    assert_eq!(share_body(&Some(body.clone())).unwrap(), body);
    assert!(share_body(&None).is_none());
}

#[test]
fn a_clock_without_a_date_counts_as_1970() {
    assert_eq!(second_of(Some(1_700_000_000)), 1_700_000_000);
    assert_eq!(second_of(None), 0);
}

#[test]
fn the_clock_goes_on() {
    let before = SystemTime::now();
    let time = read_time();
    assert!(before <= time && time <= SystemTime::now());
}
