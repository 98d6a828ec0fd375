//! What the window of the application shows, and how the events of the service change it.

use vstd::prelude::*;

use crate::message::{Http3Request, Http3Response};
use crate::text::join;

verus! {

/// What the window shows.
#[derive(Debug)]
pub struct WindowState {
    /// How often the button was clicked.
    pub request_count: i32,
    /// How many HTTP/3 requests were answered.
    pub http3_request_count: i32,
    /// Whether there is a connection.
    pub http3_connected: bool,
    /// What became of the connection last.
    pub http3_status: String,
    /// The last error.
    pub http3_error: String,
    /// What happened last.
    pub message: String,
    /// What was typed in when the button was clicked last.
    pub shown_input: String,
}

/// What the window shows, as plain values.
#[verifier::ext_equal]
pub struct WindowModel {
    /// How often the button was clicked.
    pub request_count: int,
    /// How many HTTP/3 requests were answered.
    pub http3_request_count: int,
    /// Whether there is a connection.
    pub http3_connected: bool,
    /// What became of the connection last.
    pub http3_status: Seq<char>,
    /// The last error.
    pub http3_error: Seq<char>,
    /// What happened last.
    pub message: Seq<char>,
    /// What was typed in when the button was clicked last.
    pub shown_input: Seq<char>,
}

impl View for WindowState {
    type V = WindowModel;

    open spec fn view(&self) -> WindowModel {
        WindowModel {
            request_count: self.request_count as int,
            http3_request_count: self.http3_request_count as int,
            http3_connected: self.http3_connected,
            http3_status: self.http3_status@,
            http3_error: self.http3_error@,
            message: self.message@,
            shown_input: self.shown_input@,
        }
    }
}

impl WindowModel {
    /// A request came in.
    pub open spec fn requested(self, method: Seq<char>, path: Seq<char>) -> WindowModel {
        WindowModel {
            http3_request_count: self.http3_request_count + 1,
            message: "HTTP/3 请求: "@ + method + " "@ + path,
            ..self
        }
    }

    /// A connection was established.
    pub open spec fn connected(self) -> WindowModel {
        WindowModel { http3_connected: true, http3_status: "已连接"@, ..self }
    }

    /// The connection was closed.
    pub open spec fn disconnected(self) -> WindowModel {
        WindowModel { http3_connected: false, http3_status: "已断开"@, ..self }
    }

    /// Something went wrong.
    pub open spec fn failed(self, error: Seq<char>) -> WindowModel {
        WindowModel { http3_error: error, http3_status: "错误"@, ..self }
    }

    /// The button was clicked, with this text typed in.
    pub open spec fn clicked(self, input: Seq<char>) -> WindowModel {
        WindowModel {
            request_count: self.request_count + 1,
            message: "Button clicked!"@,
            shown_input: input,
            ..self
        }
    }
}

/// The response greets whoever asked, in plain text, and bears the date that the clock shows.
pub open spec fn is_greeting(response: Http3Response) -> bool {
    &&& response.status == 200
    &&& crate::message::holds_text(
        response.body,
        "Hello from HTTP/3! 来自HTTP/3的问候!"@,
    )
    &&& exists|seconds: i64| #[trigger]
        crate::clock::is_clock_reading(seconds) && response.headers@
            == crate::message::dated_headers(
            crate::clock::rfc2822(crate::clock::nearest_date(seconds)),
        ).insert("content-type"@, "text/plain; charset=utf-8"@)
    &&& crate::clock::is_time_read(response.timestamp)
}

/// The answer to every request.
fn greeting() -> (response: Http3Response)
    ensures
        is_greeting(response),
{
    let response = Http3Response::new(200);
    let ghost fresh = response.headers@;
    let response = response.with_header(
        "content-type".to_owned(),
        "text/plain; charset=utf-8".to_owned(),
    ).text("Hello from HTTP/3! 来自HTTP/3的问候!");
    assert(response.headers@ =~= fresh.insert("content-type"@, "text/plain; charset=utf-8"@));
    response
}

impl WindowState {
    /// Answers a request, and shows what was asked for.
    pub fn on_request(&mut self, request: &Http3Request) -> (response: Http3Response)
        requires
            old(self).http3_request_count < i32::MAX,
        ensures
            is_greeting(response),
            final(self)@ == old(self)@.requested(request.method@, request.path@),
    {
        self.http3_request_count += 1;
        let method = join("HTTP/3 请求: ", request.method.as_str());
        let line = join(method.as_str(), " ");
        self.message = join(line.as_str(), request.path.as_str());
        greeting()
    }

    /// Shows that a connection was established.
    pub fn on_connection_established(&mut self)
        ensures
            final(self)@ == old(self)@.connected(),
    {
        self.http3_connected = true;
        self.http3_status = "已连接".to_owned();
    }

    /// Shows that the connection was closed.
    pub fn on_connection_closed(&mut self)
        ensures
            final(self)@ == old(self)@.disconnected(),
    {
        self.http3_connected = false;
        self.http3_status = "已断开".to_owned();
    }

    /// Shows what went wrong.
    pub fn on_error(&mut self, error: String)
        ensures
            final(self)@ == old(self)@.failed(error@),
    {
        self.http3_error = error;
        self.http3_status = "错误".to_owned();
    }

    /// Shows that the button was clicked, and what was typed in.
    pub fn on_button_clicked(&mut self, input: String)
        requires
            old(self).request_count < i32::MAX,
        ensures
            final(self)@ == old(self)@.clicked(input@),
    {
        self.request_count += 1;
        self.message = "Button clicked!".to_owned();
        self.shown_input = input;
    }
}

/// To hear twice that a connection was established, or closed, is to hear it once; and a closing
/// takes back what an establishing has shown.
pub proof fn notices_may_be_repeated(window: WindowModel)
    ensures
        window.connected().connected() == window.connected(),
        window.disconnected().disconnected() == window.disconnected(),
        window.connected().disconnected() == window.disconnected(),
        window.disconnected().connected() == window.connected(),
{
}

/// An error leaves it open whether there is a connection, and what is heard of the connection
/// afterwards leaves the error shown.
pub proof fn an_error_stays_shown(window: WindowModel, error: Seq<char>)
    ensures
        window.failed(error).http3_connected == window.http3_connected,
        window.failed(error).disconnected().http3_error == error,
        window.failed(error).connected().http3_error == error,
{
}

/// The button and the requests are counted apart: in whichever order a click and a request come,
/// both counts go up by one, and the message is that of the last.
pub proof fn clicks_and_requests_are_counted_apart(
    window: WindowModel,
    method: Seq<char>,
    path: Seq<char>,
    input: Seq<char>,
)
    ensures
        ({
            let request_last = window.clicked(input).requested(method, path);
            let click_last = window.requested(method, path).clicked(input);
            &&& request_last.request_count == window.request_count + 1
            &&& request_last.http3_request_count == window.http3_request_count + 1
            &&& request_last.message == window.requested(method, path).message
            &&& click_last.message == window.clicked(input).message
            &&& (WindowModel { message: click_last.message, ..request_last }) == click_last
        }),
{
}

} // verus!
