//! Promises on what the window shows.

use vstd::prelude::*;

use crate::headers::HeaderMap;
use crate::message::{Http3Request, Http3Response};
use crate::window::WindowState;

verus! {

/// Whatever a window shows, a request makes it show the method and the path of this request and
/// count one request more, and is greeted. All else that is shown stays.
pub proof fn a_request_is_shown(
    window: &mut WindowState,
    request: Http3Request,
    response: Http3Response,
    asked: &str,
    got: Option<&String>,
)
    requires
        call_ensures(WindowState::on_request, (window, &request), response),
        call_ensures(HeaderMap::get, (&response.headers, asked), got),
    ensures
        final(window).message@ == "HTTP/3 请求: "@ + request.method@ + " "@ + request.path@,
        final(window).http3_request_count == old(window).http3_request_count + 1,
        final(window).request_count == old(window).request_count,
        final(window).http3_connected == old(window).http3_connected,
        final(window).http3_status@ == old(window).http3_status@,
        final(window).http3_error@ == old(window).http3_error@,
        final(window).shown_input@ == old(window).shown_input@,
        response.status == 200,
        response.body is Some && crate::body::contents(response.body->0)
            == vstd::utf8::encode_utf8("Hello from HTTP/3! 来自HTTP/3的问候!"@),
        crate::clock::is_time_read(response.timestamp),
        asked@ == "content-type"@ ==> got is Some && got->0@ == "text/plain; charset=utf-8"@,
        asked@ == "server"@ ==> got is Some && got->0@ == "Enterprise-HTTP3-Server/1.0"@,
        asked@ == "date"@ ==> got is Some && exists|seconds: i64| #[trigger]
            crate::clock::is_clock_reading(seconds) && (-62_167_219_200 <= seconds
                <= 253_402_300_799 ==> got->0@ == crate::clock::rfc2822(seconds)),
        asked@ != "content-type"@ && asked@ != "server"@ && asked@ != "date"@ ==> got is None,
{
    reveal_strlit("server");
    reveal_strlit("date");
    reveal_strlit("content-type");
    assert("server"@.len() == 6 && "date"@.len() == 4 && "content-type"@.len() == 12);
}

/// Two windows that answer the same request show the same message, whatever they showed before.
pub proof fn the_message_is_that_of_the_request(
    one: &mut WindowState,
    other: &mut WindowState,
    request: Http3Request,
    response: Http3Response,
    other_response: Http3Response,
)
    requires
        call_ensures(WindowState::on_request, (one, &request), response),
        call_ensures(WindowState::on_request, (other, &request), other_response),
    ensures
        final(one).message@ == final(other).message@,
        response.status == other_response.status,
        crate::body::contents(response.body->0) == crate::body::contents(other_response.body->0),
{
}

/// A connection that is established, or closed, is shown as such; all else that is shown stays.
pub proof fn a_connection_is_shown(opened: &mut WindowState, closed: &mut WindowState)
    requires
        call_ensures(WindowState::on_connection_established, (opened,), ()),
        call_ensures(WindowState::on_connection_closed, (closed,), ()),
    ensures
        final(opened).http3_connected == true,
        final(opened).http3_status@ == "已连接"@,
        final(opened).request_count == old(opened).request_count,
        final(opened).http3_request_count == old(opened).http3_request_count,
        final(opened).http3_error@ == old(opened).http3_error@,
        final(opened).message@ == old(opened).message@,
        final(opened).shown_input@ == old(opened).shown_input@,
        final(closed).http3_connected == false,
        final(closed).http3_status@ == "已断开"@,
        final(closed).request_count == old(closed).request_count,
        final(closed).http3_request_count == old(closed).http3_request_count,
        final(closed).http3_error@ == old(closed).http3_error@,
        final(closed).message@ == old(closed).message@,
        final(closed).shown_input@ == old(closed).shown_input@,
{
}

/// An error is shown with its text; all else that is shown stays, the connection too.
pub proof fn an_error_is_shown(window: &mut WindowState, error: String)
    requires
        call_ensures(WindowState::on_error, (window, error), ()),
    ensures
        final(window).http3_error@ == error@,
        final(window).http3_status@ == "错误"@,
        final(window).http3_connected == old(window).http3_connected,
        final(window).request_count == old(window).request_count,
        final(window).http3_request_count == old(window).http3_request_count,
        final(window).message@ == old(window).message@,
        final(window).shown_input@ == old(window).shown_input@,
{
}

/// A click is counted, and what was typed in is shown; all else that is shown stays.
pub proof fn a_click_is_shown(window: &mut WindowState, input: String)
    requires
        call_ensures(WindowState::on_button_clicked, (window, input), ()),
    ensures
        final(window).shown_input@ == input@,
        final(window).message@ == "Button clicked!"@,
        final(window).request_count == old(window).request_count + 1,
        final(window).http3_request_count == old(window).http3_request_count,
        final(window).http3_connected == old(window).http3_connected,
        final(window).http3_status@ == old(window).http3_status@,
        final(window).http3_error@ == old(window).http3_error@,
{
}

} // verus!
