use enterprise_http3::message::Http3Request;
use enterprise_http3::window::WindowState;

fn fresh() -> WindowState {
    WindowState {
        request_count: 0,
        http3_request_count: 0,
        http3_connected: false,
        http3_status: String::new(),
        http3_error: String::new(),
        message: String::new(),
        shown_input: String::new(),
    }
}

#[test]
fn a_request_is_counted_shown_and_greeted() {
    let mut window = fresh();
    let request = Http3Request::new("GET".to_string(), "/hello".to_string());
    let response = window.on_request(&request);
    assert_eq!(window.http3_request_count, 1);
    assert_eq!(window.request_count, 0);
    assert_eq!(window.message, "HTTP/3 请求: GET /hello");
    assert_eq!(response.status, 200);
    assert_eq!(response.headers.len(), 3);
    assert_eq!(response.headers.get("content-type").unwrap(), "text/plain; charset=utf-8");
    assert_eq!(
        response.body.unwrap().as_ref(),
        "Hello from HTTP/3! 来自HTTP/3的问候!".as_bytes()
    );
}

#[test]
fn a_click_is_counted_and_shows_the_input() {
    let mut window = fresh();
    window.on_button_clicked("typed".to_string());
    window.on_button_clicked("again".to_string());
    assert_eq!(window.request_count, 2);
    assert_eq!(window.http3_request_count, 0);
    assert_eq!(window.message, "Button clicked!");
    assert_eq!(window.shown_input, "again");
}

#[test]
fn repeated_notices_show_the_same() {
    let mut window = fresh();
    window.on_connection_established();
    window.on_connection_established();
    assert!(window.http3_connected);
    assert_eq!(window.http3_status, "已连接");
    window.on_connection_closed();
    window.on_connection_closed();
    assert!(!window.http3_connected);
    assert_eq!(window.http3_status, "已断开");
}

#[test]
fn an_error_stays_after_the_connection() {
    let mut window = fresh();
    window.on_connection_established();
    window.on_error("lost".to_string());
    assert!(window.http3_connected);
    assert_eq!(window.http3_status, "错误");
    window.on_connection_closed();
    assert_eq!(window.http3_error, "lost");
    assert_eq!(window.http3_status, "已断开");
}

#[test]
fn clicks_and_requests_are_counted_separately() {
    let mut window = fresh();
    let request = Http3Request::new("PUT".to_string(), "/x".to_string());
    window.on_button_clicked("in".to_string());
    window.on_request(&request);
    assert_eq!((window.request_count, window.http3_request_count), (1, 1));
    assert_eq!(window.message, "HTTP/3 请求: PUT /x");
    window.on_button_clicked("in".to_string());
    assert_eq!((window.request_count, window.http3_request_count), (2, 1));
    assert_eq!(window.message, "Button clicked!");
}
