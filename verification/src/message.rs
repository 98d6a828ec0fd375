//! Requests and responses.

use bytes::Bytes;
use std::time::SystemTime;
use vstd::prelude::*;

use crate::body::{share_body, text_body};
use crate::clock::{current_date, read_time};
use crate::headers::HeaderMap;
use crate::text::decimal_text;

verus! {

/// An HTTP/3 request.
#[derive(Debug)]
pub struct Http3Request {
    /// The method, such as `GET`.
    pub method: String,
    /// The scheme, such as `https`.
    pub scheme: String,
    /// The host that is asked, with a port where one was given.
    pub authority: String,
    /// The path, with a query where one was given.
    pub path: String,
    /// The other header fields.
    pub headers: HeaderMap,
    /// The body, where there is one.
    pub body: Option<Bytes>,
    /// When the request was made or received.
    pub timestamp: SystemTime,
}

impl Clone for Http3Request {
    fn clone(&self) -> (copy: Http3Request)
        ensures
            copy == (Http3Request { headers: copy.headers, body: copy.body, ..*self }),
            copy.headers.listing() == self.headers.listing(),
            crate::body::same_body(copy.body, self.body),
    {
        Http3Request {
            method: self.method.clone(),
            scheme: self.scheme.clone(),
            authority: self.authority.clone(),
            path: self.path.clone(),
            headers: self.headers.clone(),
            body: share_body(&self.body),
            timestamp: self.timestamp,
        }
    }
}

impl Http3Request {
    /// A request made at a given time: over `https`, to `localhost`, without header fields and
    /// without a body.
    pub fn made_at(method: String, path: String, timestamp: SystemTime) -> (request: Http3Request)
        ensures
            request.method == method,
            request.scheme@ == "https"@,
            request.authority@ == "localhost"@,
            request.path == path,
            request.headers.listing() == Seq::<crate::headers::FieldText>::empty(),
            request.body is None,
            request.timestamp == timestamp,
    {
        Http3Request {
            method,
            scheme: "https".to_owned(),
            authority: "localhost".to_owned(),
            path,
            headers: HeaderMap::new(),
            body: None,
            timestamp,
        }
    }

    /// A request made now: over `https`, to `localhost`, without header fields and without a body.
    pub fn new(method: String, path: String) -> (request: Http3Request)
        ensures
            request.method == method,
            request.scheme@ == "https"@,
            request.authority@ == "localhost"@,
            request.path == path,
            request.headers.listing() == Seq::<crate::headers::FieldText>::empty(),
            request.body is None,
            crate::clock::is_time_read(request.timestamp),
    {
        Http3Request::made_at(method, path, read_time())
    }

    /// The request with one header field set; all else stays.
    pub fn with_header(self, name: String, value: String) -> (request: Http3Request)
        ensures
            request.headers@ == self.headers@.insert(name@, value@),
            request.headers.listing() == crate::headers::set_field(
                self.headers.listing(),
                name@,
                value@,
            ),
            request == (Http3Request { headers: request.headers, ..self }),
    {
        let mut request = self;
        request.headers.insert(name, value);
        request
    }

    /// The request with its body set; all else stays.
    pub fn with_body(self, body: Bytes) -> (request: Http3Request)
        ensures
            request == (Http3Request { body: Some(body), ..self }),
    {
        let mut request = self;
        request.body = Some(body);
        request
    }
}

/// An HTTP/3 response.
#[derive(Debug)]
pub struct Http3Response {
    /// The status code, such as 200.
    pub status: u64,
    /// The header fields.
    pub headers: HeaderMap,
    /// The body, where there is one.
    pub body: Option<Bytes>,
    /// When the response was made.
    pub timestamp: SystemTime,
}

impl Clone for Http3Response {
    fn clone(&self) -> (copy: Http3Response)
        ensures
            copy == (Http3Response { headers: copy.headers, body: copy.body, ..*self }),
            copy.headers.listing() == self.headers.listing(),
            crate::body::same_body(copy.body, self.body),
    {
        Http3Response {
            status: self.status,
            headers: self.headers.clone(),
            body: share_body(&self.body),
            timestamp: self.timestamp,
        }
    }
}

/// The header fields of a response with a date: who serves, and when.
pub open spec fn dated_headers(date: Seq<char>) -> Map<Seq<char>, Seq<char>> {
    map!["server"@ => "Enterprise-HTTP3-Server/1.0"@, "date"@ => date]
}

/// The header fields after a body of `length` bytes was set.
pub open spec fn sized_headers(
    headers: Map<Seq<char>, Seq<char>>,
    length: nat,
) -> Map<Seq<char>, Seq<char>> {
    headers.insert("content-length"@, crate::text::decimal(length))
}

/// The body holds the text in UTF-8.
pub open spec fn holds_text(body: Option<Bytes>, data: Seq<char>) -> bool {
    body matches Some(b) && crate::body::contents(b) == vstd::utf8::encode_utf8(data)
}

impl Http3Response {
    /// A response with a given date, made at a given time: it names the server and the date and
    /// has no body.
    pub fn dated(status: u64, date: String, timestamp: SystemTime) -> (response: Http3Response)
        ensures
            response.status == status,
            response.headers@ == dated_headers(date@),
            response.body is None,
            response.timestamp == timestamp,
    {
        let mut headers = HeaderMap::new();
        headers.insert("server".to_owned(), "Enterprise-HTTP3-Server/1.0".to_owned());
        headers.insert("date".to_owned(), date);
        assert(headers@ =~= dated_headers(date@));
        Http3Response { status, headers, body: None, timestamp }
    }

    /// A response made now: it names the server and the current date and has no body.
    pub fn new(status: u64) -> (response: Http3Response)
        ensures
            response.status == status,
            exists|seconds: i64| #[trigger]
                crate::clock::is_clock_reading(seconds) && response.headers@ == dated_headers(
                    crate::clock::rfc2822(crate::clock::nearest_date(seconds)),
                ),
            response.body is None,
            crate::clock::is_time_read(response.timestamp),
    {
        let (_, date) = current_date();
        Http3Response::dated(status, date, read_time())
    }

    /// The response with one header field set; all else stays.
    pub fn with_header(self, name: String, value: String) -> (response: Http3Response)
        ensures
            response.headers@ == self.headers@.insert(name@, value@),
            response == (Http3Response { headers: response.headers, ..self }),
    {
        let mut response = self;
        response.headers.insert(name, value);
        response
    }

    /// The response with its body set, and with the length of the body in its header fields.
    pub fn with_body(self, body: Bytes) -> (response: Http3Response)
        ensures
            response.headers@ == sized_headers(
                self.headers@,
                crate::body::contents(body).len(),
            ),
            response == (Http3Response {
                headers: response.headers,
                body: Some(body),
                ..self
            }),
    {
        let mut response = self;
        response.headers.insert("content-length".to_owned(), decimal_text(body.len() as u64));
        response.body = Some(body);
        response
    }

    /// The response with a JSON text as its body; all but the body and the header fields that
    /// describe it stays.
    pub fn with_json(self, data: &str) -> (response: Http3Response)
        ensures
            holds_text(response.body, data@),
            response.headers@ == sized_headers(
                self.headers@.insert("content-type"@, "application/json"@),
                vstd::utf8::encode_utf8(data@).len(),
            ),
            response == (Http3Response {
                headers: response.headers,
                body: response.body,
                ..self
            }),
    {
        self.with_header("content-type".to_owned(), "application/json".to_owned()).with_body(
            text_body(data),
        )
    }

    /// A response made now, with a JSON text as its body.
    pub fn json(status: u64, data: &str) -> (response: Http3Response)
        ensures
            response.status == status,
            holds_text(response.body, data@),
            exists|seconds: i64| #[trigger]
                crate::clock::is_clock_reading(seconds) && response.headers@ == sized_headers(
                    dated_headers(
                        crate::clock::rfc2822(crate::clock::nearest_date(seconds)),
                    ).insert("content-type"@, "application/json"@),
                    vstd::utf8::encode_utf8(data@).len(),
                ),
            crate::clock::is_time_read(response.timestamp),
    {
        Http3Response::new(status).with_json(data)
    }

    /// The response with a plain text as its body. The content type is set with it; the length of
    /// the body is not.
    pub fn text(self, data: &str) -> (response: Http3Response)
        ensures
            holds_text(response.body, data@),
            response.headers@ == self.headers@.insert(
                "content-type"@,
                "text/plain; charset=utf-8"@,
            ),
            response == (Http3Response {
                headers: response.headers,
                body: response.body,
                ..self
            }),
    {
        let mut response = self;
        response.headers.insert("content-type".to_owned(), "text/plain; charset=utf-8".to_owned());
        response.body = Some(text_body(data));
        response
    }
}

/// Of two values that are set for one name the last counts, and fields with different names can
/// be set in either order.
pub proof fn the_last_value_counts(
    headers: Map<Seq<char>, Seq<char>>,
    first: crate::headers::FieldText,
    second: crate::headers::FieldText,
)
    ensures
        first.0 == second.0 ==> headers.insert(first.0, first.1).insert(second.0, second.1)
            == headers.insert(second.0, second.1),
        first.0 != second.0 ==> headers.insert(first.0, first.1).insert(second.0, second.1)
            == headers.insert(second.0, second.1).insert(first.0, first.1),
{
    let both = headers.insert(first.0, first.1).insert(second.0, second.1);
    if first.0 == second.0 {
        assert(both =~= headers.insert(second.0, second.1));
    } else {
        assert(both =~= headers.insert(second.0, second.1).insert(first.0, first.1));
    }
}

/// The length of the body can be read back from the header fields of a response, whatever they
/// held before; the other fields stay.
pub proof fn the_length_reads_back(
    headers: Map<Seq<char>, Seq<char>>,
    length: nat,
    name: Seq<char>,
)
    ensures
        crate::text::decimal_value(sized_headers(headers, length)["content-length"@]) == length,
        name != "content-length"@ ==> sized_headers(headers, length).contains_key(name)
            == headers.contains_key(name) && sized_headers(headers, length)[name]
            == headers[name],
{
    crate::text::decimal_reads_back(length);
}

/// A JSON response has four header fields: the server, the date, the content type and the length
/// of its body in bytes.
pub proof fn a_json_response_describes_its_body(date: Seq<char>, data: Seq<char>)
    ensures
        ({
            let headers = sized_headers(
                dated_headers(date).insert("content-type"@, "application/json"@),
                vstd::utf8::encode_utf8(data).len(),
            );
            &&& headers.dom() =~= set!["server"@, "date"@, "content-type"@, "content-length"@]
            &&& headers["server"@] == "Enterprise-HTTP3-Server/1.0"@
            &&& headers["date"@] == date
            &&& headers["content-type"@] == "application/json"@
            &&& crate::text::decimal_value(headers["content-length"@]) == vstd::utf8::encode_utf8(
                data,
            ).len()
        }),
{
    crate::text::decimal_reads_back(vstd::utf8::encode_utf8(data).len());
    reveal_strlit("server");
    reveal_strlit("date");
    reveal_strlit("content-type");
    reveal_strlit("content-length");
    assert("server"@.len() == 6 && "date"@.len() == 4 && "content-type"@.len() == 12
        && "content-length"@.len() == 14);
}

} // verus!
