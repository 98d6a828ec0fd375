//! Promises on requests and responses, and on the form in which they cross a connection.

use bytes::Bytes;
use std::time::SystemTime;
use vstd::prelude::*;

use crate::headers::HeaderMap;
use crate::message::{Http3Request, Http3Response};
use crate::text::decimal_text;
use crate::wire::{
    parse_headers_at, parse_request_headers, request_headers, response_headers, Header,
};

verus! {

/// A new request has the method and the path that it was given, goes to `localhost` over `https`,
/// and has no header fields and no body.
pub proof fn a_new_request_is_what_was_asked_for(
    method: String,
    path: String,
    timestamp: SystemTime,
    made: Http3Request,
    fresh: Http3Request,
    n: usize,
    m: usize,
)
    requires
        call_ensures(Http3Request::made_at, (method, path, timestamp), made),
        call_ensures(Http3Request::new, (method, path), fresh),
        call_ensures(HeaderMap::len, (&made.headers,), n),
        call_ensures(HeaderMap::len, (&fresh.headers,), m),
    ensures
        made.method@ == method@ && fresh.method@ == method@,
        made.path@ == path@ && fresh.path@ == path@,
        made.scheme@ == "https"@ && fresh.scheme@ == "https"@,
        made.authority@ == "localhost"@ && fresh.authority@ == "localhost"@,
        made.body is None && fresh.body is None,
        n == 0 && m == 0,
        made.timestamp == timestamp,
        crate::clock::is_time_read(fresh.timestamp),
{
}

/// A header field that is set on a request can be read there; every other field, and all else,
/// stays as it was.
pub proof fn a_header_set_on_a_request_is_read(
    before: Http3Request,
    name: String,
    value: String,
    after: Http3Request,
    asked: &str,
    got_before: Option<&String>,
    got_after: Option<&String>,
)
    requires
        call_ensures(Http3Request::with_header, (before, name, value), after),
        call_ensures(HeaderMap::get, (&before.headers, asked), got_before),
        call_ensures(HeaderMap::get, (&after.headers, asked), got_after),
    ensures
        asked@ == name@ ==> got_after is Some && got_after->0@ == value@,
        asked@ != name@ ==> (got_after is Some <==> got_before is Some),
        asked@ != name@ && got_before is Some ==> got_after->0@ == got_before->0@,
        after.method == before.method,
        after.scheme == before.scheme,
        after.authority == before.authority,
        after.path == before.path,
        after.body == before.body,
        after.timestamp == before.timestamp,
{
}

/// A body that is set on a request is its body; all else stays as it was.
pub proof fn a_body_set_on_a_request_is_its_body(
    before: Http3Request,
    body: Bytes,
    after: Http3Request,
)
    requires
        call_ensures(Http3Request::with_body, (before, body), after),
    ensures
        after.body == Some(body),
        after.method == before.method,
        after.scheme == before.scheme,
        after.authority == before.authority,
        after.path == before.path,
        after.headers == before.headers,
        after.timestamp == before.timestamp,
{
}

/// A copy of a request or of a response is the same message.
pub proof fn a_copied_message_is_the_same(
    request: Http3Request,
    request_copy: Http3Request,
    response: Http3Response,
    response_copy: Http3Response,
    asked: &str,
    got: Option<&String>,
    got_copy: Option<&String>,
    read: Option<&String>,
    read_copy: Option<&String>,
)
    requires
        call_ensures(Http3Request::clone, (&request,), request_copy),
        call_ensures(Http3Response::clone, (&response,), response_copy),
        call_ensures(HeaderMap::get, (&request.headers, asked), got),
        call_ensures(HeaderMap::get, (&request_copy.headers, asked), got_copy),
        call_ensures(HeaderMap::get, (&response.headers, asked), read),
        call_ensures(HeaderMap::get, (&response_copy.headers, asked), read_copy),
    ensures
        request_copy.method@ == request.method@,
        request_copy.scheme@ == request.scheme@,
        request_copy.authority@ == request.authority@,
        request_copy.path@ == request.path@,
        request_copy.timestamp == request.timestamp,
        request_copy.body is Some <==> request.body is Some,
        request.body is Some ==> crate::body::contents(request_copy.body->0)
            == crate::body::contents(request.body->0),
        got is Some <==> got_copy is Some,
        got is Some ==> got->0@ == got_copy->0@,
        response_copy.status == response.status,
        response_copy.timestamp == response.timestamp,
        response_copy.body is Some <==> response.body is Some,
        response.body is Some ==> crate::body::contents(response_copy.body->0)
            == crate::body::contents(response.body->0),
        read is Some <==> read_copy is Some,
        read is Some ==> read->0@ == read_copy->0@,
{
}

proof fn lemma_field_names_differ()
    ensures
        "server"@ != "date"@,
        "server"@ != "content-type"@,
        "server"@ != "content-length"@,
        "date"@ != "content-type"@,
        "date"@ != "content-length"@,
        "content-type"@ != "content-length"@,
{
    reveal_strlit("server");
    reveal_strlit("date");
    reveal_strlit("content-type");
    reveal_strlit("content-length");
    assert("server"@.len() == 6 && "date"@.len() == 4 && "content-type"@.len() == 12
        && "content-length"@.len() == 14);
}

/// A response with a given date has the status that it was given, names the server and the date
/// and nothing else in its header fields, and has no body.
pub proof fn a_dated_response_is_what_was_asked_for(
    status: u64,
    date: String,
    timestamp: SystemTime,
    response: Http3Response,
    asked: &str,
    got: Option<&String>,
)
    requires
        call_ensures(Http3Response::dated, (status, date, timestamp), response),
        call_ensures(HeaderMap::get, (&response.headers, asked), got),
    ensures
        response.status == status,
        response.timestamp == timestamp,
        response.body is None,
        asked@ == "server"@ ==> got is Some && got->0@ == "Enterprise-HTTP3-Server/1.0"@,
        asked@ == "date"@ ==> got is Some && got->0@ == date@,
        asked@ != "server"@ && asked@ != "date"@ ==> got is None,
{
    lemma_field_names_differ();
}

/// A new response has the status that it was given, names the server and the date of a second
/// that the clock has shown and nothing else in its header fields, and has no body.
pub proof fn a_new_response_is_what_was_asked_for(
    status: u64,
    response: Http3Response,
    server: &str,
    got_server: Option<&String>,
    date: &str,
    got_date: Option<&String>,
    other: &str,
    got_other: Option<&String>,
)
    requires
        call_ensures(Http3Response::new, (status,), response),
        server@ == "server"@,
        call_ensures(HeaderMap::get, (&response.headers, server), got_server),
        date@ == "date"@,
        call_ensures(HeaderMap::get, (&response.headers, date), got_date),
        other@ != "server"@ && other@ != "date"@,
        call_ensures(HeaderMap::get, (&response.headers, other), got_other),
    ensures
        response.status == status,
        crate::clock::is_time_read(response.timestamp),
        response.body is None,
        got_server is Some && got_server->0@ == "Enterprise-HTTP3-Server/1.0"@,
        got_date is Some,
        exists|seconds: i64| #[trigger]
            crate::clock::is_clock_reading(seconds) && (-62_167_219_200 <= seconds
                <= 253_402_300_799 ==> got_date->0@ == crate::clock::rfc2822(seconds)),
        got_other is None,
{
    lemma_field_names_differ();
}

/// A header field that is set on a response can be read there; every other field, and all else,
/// stays as it was.
pub proof fn a_header_set_on_a_response_is_read(
    before: Http3Response,
    name: String,
    value: String,
    after: Http3Response,
    asked: &str,
    got_before: Option<&String>,
    got_after: Option<&String>,
)
    requires
        call_ensures(Http3Response::with_header, (before, name, value), after),
        call_ensures(HeaderMap::get, (&before.headers, asked), got_before),
        call_ensures(HeaderMap::get, (&after.headers, asked), got_after),
    ensures
        asked@ == name@ ==> got_after is Some && got_after->0@ == value@,
        asked@ != name@ ==> (got_after is Some <==> got_before is Some),
        asked@ != name@ && got_before is Some ==> got_after->0@ == got_before->0@,
        after.status == before.status,
        after.body == before.body,
        after.timestamp == before.timestamp,
{
}

/// A body that is set on a response is its body, and the number of its bytes can be read in the
/// header fields; every other field, and all else, stays as it was.
pub proof fn a_body_set_on_a_response_brings_its_length(
    before: Http3Response,
    body: Bytes,
    after: Http3Response,
    length: u64,
    length_text: String,
    asked: &str,
    got_before: Option<&String>,
    got_after: Option<&String>,
)
    requires
        call_ensures(Http3Response::with_body, (before, body), after),
        length == crate::body::contents(body).len(),
        call_ensures(decimal_text, (length,), length_text),
        call_ensures(HeaderMap::get, (&before.headers, asked), got_before),
        call_ensures(HeaderMap::get, (&after.headers, asked), got_after),
    ensures
        after.body == Some(body),
        asked@ == "content-length"@ ==> got_after is Some && got_after->0@ == length_text@,
        asked@ != "content-length"@ ==> (got_after is Some <==> got_before is Some),
        asked@ != "content-length"@ && got_before is Some ==> got_after->0@ == got_before->0@,
        after.status == before.status,
        after.timestamp == before.timestamp,
{
}

/// A text that is set on a response is its body, in UTF-8, and its type is plain text; every other
/// field, and all else, stays as it was.
pub proof fn a_text_set_on_a_response_is_its_body(
    before: Http3Response,
    data: &str,
    after: Http3Response,
    asked: &str,
    got_before: Option<&String>,
    got_after: Option<&String>,
)
    requires
        call_ensures(Http3Response::text, (before, data), after),
        call_ensures(HeaderMap::get, (&before.headers, asked), got_before),
        call_ensures(HeaderMap::get, (&after.headers, asked), got_after),
    ensures
        after.body is Some && crate::body::contents(after.body->0) == vstd::utf8::encode_utf8(
            data@,
        ),
        asked@ == "content-type"@ ==> got_after is Some && got_after->0@
            == "text/plain; charset=utf-8"@,
        asked@ != "content-type"@ ==> (got_after is Some <==> got_before is Some),
        asked@ != "content-type"@ && got_before is Some ==> got_after->0@ == got_before->0@,
        after.status == before.status,
        after.timestamp == before.timestamp,
{
}

/// A JSON text that is set on a response is its body, in UTF-8; its type and its length in bytes
/// can be read in the header fields. Every other field, and all else, stays as it was.
pub proof fn a_json_text_set_on_a_response_is_its_body(
    before: Http3Response,
    data: &str,
    after: Http3Response,
    length: u64,
    length_text: String,
    asked: &str,
    got_before: Option<&String>,
    got_after: Option<&String>,
)
    requires
        call_ensures(Http3Response::with_json, (before, data), after),
        length == vstd::utf8::encode_utf8(data@).len(),
        call_ensures(decimal_text, (length,), length_text),
        call_ensures(HeaderMap::get, (&before.headers, asked), got_before),
        call_ensures(HeaderMap::get, (&after.headers, asked), got_after),
    ensures
        after.body is Some && crate::body::contents(after.body->0) == vstd::utf8::encode_utf8(
            data@,
        ),
        asked@ == "content-type"@ ==> got_after is Some && got_after->0@ == "application/json"@,
        asked@ == "content-length"@ ==> got_after is Some && got_after->0@ == length_text@,
        asked@ != "content-type"@ && asked@ != "content-length"@ ==> (got_after is Some
            <==> got_before is Some),
        asked@ != "content-type"@ && asked@ != "content-length"@ && got_before is Some
            ==> got_after->0@ == got_before->0@,
        after.status == before.status,
        after.timestamp == before.timestamp,
{
    lemma_field_names_differ();
}

/// A JSON response has the status and the body that it was given, and says of itself who serves
/// it, when, of what type it is and how long.
pub proof fn a_json_response_is_what_was_asked_for(
    status: u64,
    data: &str,
    response: Http3Response,
    length: u64,
    length_text: String,
    asked: &str,
    got: Option<&String>,
)
    requires
        call_ensures(Http3Response::json, (status, data), response),
        length == vstd::utf8::encode_utf8(data@).len(),
        call_ensures(decimal_text, (length,), length_text),
        call_ensures(HeaderMap::get, (&response.headers, asked), got),
    ensures
        response.status == status,
        crate::clock::is_time_read(response.timestamp),
        response.body is Some && crate::body::contents(response.body->0)
            == vstd::utf8::encode_utf8(data@),
        asked@ == "server"@ ==> got is Some && got->0@ == "Enterprise-HTTP3-Server/1.0"@,
        asked@ == "date"@ ==> got is Some && exists|seconds: i64| #[trigger]
            crate::clock::is_clock_reading(seconds) && (-62_167_219_200 <= seconds
                <= 253_402_300_799 ==> got->0@ == crate::clock::rfc2822(seconds)),
        asked@ == "content-type"@ ==> got is Some && got->0@ == "application/json"@,
        asked@ == "content-length"@ ==> got is Some && got->0@ == length_text@,
        asked@ != "server"@ && asked@ != "date"@ && asked@ != "content-type"@ && asked@
            != "content-length"@ ==> got is None,
{
    lemma_field_names_differ();
}

/// A raw field has the bytes of its name and of its value, in UTF-8.
pub proof fn a_raw_field_holds_its_text(name: &str, value: &str, header: Header)
    requires
        call_ensures(Header::from_text, (name, value), header),
    ensures
        header.name@ == vstd::utf8::encode_utf8(name@),
        header.value@ == vstd::utf8::encode_utf8(value@),
{
}

/// A request is sent by its four parts, under the names that stand for them, and then by each of
/// its header fields, none of them left out.
pub proof fn a_request_is_sent_with_all_its_fields(
    request: Http3Request,
    headers: Vec<Header>,
    n: usize,
    i: usize,
    field: (&String, &String),
)
    requires
        call_ensures(request_headers, (&request,), headers),
        call_ensures(HeaderMap::len, (&request.headers,), n),
        i < n ==> call_ensures(HeaderMap::entry, (&request.headers, i), field),
    ensures
        headers@.len() == n + 4,
        headers@[0].name@ == vstd::utf8::encode_utf8(":method"@),
        headers@[0].value@ == vstd::utf8::encode_utf8(request.method@),
        headers@[1].name@ == vstd::utf8::encode_utf8(":scheme"@),
        headers@[1].value@ == vstd::utf8::encode_utf8(request.scheme@),
        headers@[2].name@ == vstd::utf8::encode_utf8(":authority"@),
        headers@[2].value@ == vstd::utf8::encode_utf8(request.authority@),
        headers@[3].name@ == vstd::utf8::encode_utf8(":path"@),
        headers@[3].value@ == vstd::utf8::encode_utf8(request.path@),
        i < n ==> headers@[i + 4].name@ == vstd::utf8::encode_utf8(field.0@),
        i < n ==> headers@[i + 4].value@ == vstd::utf8::encode_utf8(field.1@),
{
    lemma_request_fields(request, headers, i as int);
}

/// What the raw fields of a request hold, place by place.
pub proof fn lemma_request_fields(request: Http3Request, headers: Vec<Header>, i: int)
    requires
        crate::wire::fields(headers@) == crate::wire::all_encoded(
            crate::wire::request_texts(request),
        ),
    ensures
        headers@.len() == request.headers.listing().len() + 4,
        headers@[0]@ == crate::wire::encoded((":method"@, request.method@)),
        headers@[1]@ == crate::wire::encoded((":scheme"@, request.scheme@)),
        headers@[2]@ == crate::wire::encoded((":authority"@, request.authority@)),
        headers@[3]@ == crate::wire::encoded((":path"@, request.path@)),
        0 <= i < request.headers.listing().len() ==> headers@[i + 4]@ == crate::wire::encoded(
            request.headers.listing()[i],
        ),
{
    let raw = crate::wire::fields(headers@);
    let texts = crate::wire::request_texts(request);
    assert(raw.len() == texts.len());
    assert(raw[0] == headers@[0]@ && texts[0] == (":method"@, request.method@));
    assert(raw[1] == headers@[1]@ && texts[1] == (":scheme"@, request.scheme@));
    assert(raw[2] == headers@[2]@ && texts[2] == (":authority"@, request.authority@));
    assert(raw[3] == headers@[3]@ && texts[3] == (":path"@, request.path@));
    if 0 <= i < request.headers.listing().len() {
        assert(raw[i + 4] == headers@[i + 4]@ && texts[i + 4] == request.headers.listing()[i]);
    }
}

/// A response is sent by its status, in decimal digits, and by the type of its body.
pub proof fn a_response_is_sent_with_its_status(
    status: u64,
    status_text: String,
    headers: Vec<Header>,
)
    requires
        call_ensures(response_headers, (status,), headers),
        call_ensures(decimal_text, (status,), status_text),
    ensures
        headers@.len() == 2,
        headers@[0].name@ == vstd::utf8::encode_utf8(":status"@),
        headers@[0].value@ == vstd::utf8::encode_utf8(status_text@),
        headers@[1].name@ == vstd::utf8::encode_utf8("content-type"@),
        headers@[1].value@ == vstd::utf8::encode_utf8("application/json"@),
{
    lemma_response_fields(status, headers);
}

/// What the raw fields of a response hold, place by place.
pub proof fn lemma_response_fields(status: u64, headers: Vec<Header>)
    requires
        crate::wire::fields(headers@) == crate::wire::all_encoded(
            crate::wire::response_texts(status),
        ),
    ensures
        headers@.len() == 2,
        headers@[0]@ == crate::wire::encoded(
            (":status"@, crate::text::decimal(status as nat)),
        ),
        headers@[1]@ == crate::wire::encoded(("content-type"@, "application/json"@)),
{
    let raw = crate::wire::fields(headers@);
    let texts = crate::wire::response_texts(status);
    assert(raw.len() == texts.len());
    assert(raw[0] == headers@[0]@);
    assert(raw[1] == headers@[1]@);
}

proof fn lemma_last_value_at(list: Seq<crate::wire::FieldBytes>, name: Seq<u8>, i: int)
    requires
        0 <= i < list.len(),
        list[i].0 == name,
        forall|j: int| i < j < list.len() ==> (#[trigger] list[j]).0 != name,
    ensures
        crate::wire::last_value(list, name) == Some(list[i].1),
    decreases list.len(),
{
    if i < list.len() - 1 {
        assert(list[list.len() - 1].0 != name);
        lemma_last_value_at(list.drop_last(), name, i);
    }
}

proof fn lemma_last_value_missing(list: Seq<crate::wire::FieldBytes>, name: Seq<u8>)
    requires
        forall|j: int| 0 <= j < list.len() ==> (#[trigger] list[j]).0 != name,
    ensures
        crate::wire::last_value(list, name) is None,
    decreases list.len(),
{
    if list.len() > 0 {
        assert(list[list.len() - 1].0 != name);
        lemma_last_value_missing(list.drop_last(), name);
    }
}

proof fn lemma_collected_other_at(list: Seq<crate::wire::FieldBytes>, text: Seq<char>, i: int)
    requires
        0 <= i < list.len(),
        !crate::wire::is_request_pseudo(list[i].0),
        crate::wire::received_text(list[i].0) == text,
        forall|j: int|
            i < j < list.len() ==> crate::wire::received_text((#[trigger] list[j]).0) != text,
    ensures
        crate::headers::collected(crate::wire::other_texts(list)).contains_key(text),
        crate::headers::collected(crate::wire::other_texts(list))[text]
            == crate::wire::received_text(list[i].1),
    decreases list.len(),
{
    let rest = list.drop_last();
    let last = list.last();
    assert(list =~= rest.push(last));
    crate::wire::lemma_other_texts_push(rest, last);
    if !crate::wire::is_request_pseudo(last.0) {
        assert(crate::wire::other_texts(list).drop_last() =~= crate::wire::other_texts(rest));
    }
    if i < list.len() - 1 {
        assert(list[list.len() - 1].0 == last.0);
        lemma_collected_other_at(rest, text, i);
    }
}

proof fn lemma_collected_other_missing(list: Seq<crate::wire::FieldBytes>, text: Seq<char>)
    requires
        forall|j: int|
            0 <= j < list.len() ==> crate::wire::is_request_pseudo((#[trigger] list[j]).0)
                || crate::wire::received_text(list[j].0) != text,
    ensures
        !crate::headers::collected(crate::wire::other_texts(list)).contains_key(text),
    decreases list.len(),
{
    if list.len() > 0 {
        let rest = list.drop_last();
        let last = list.last();
        assert(list =~= rest.push(last));
        assert(list[list.len() - 1].0 == last.0);
        crate::wire::lemma_other_texts_push(rest, last);
        if !crate::wire::is_request_pseudo(last.0) {
            assert(crate::wire::other_texts(list).drop_last() =~= crate::wire::other_texts(rest));
        }
        lemma_collected_other_missing(rest, text);
    } else {
        reveal(Seq::filter);
    }
}

/// What a described request holds of the last field with a name.
pub proof fn lemma_described_part(headers: Seq<Header>, request: Http3Request, i: int)
    requires
        crate::wire::describes(crate::wire::fields(headers), request),
        0 <= i < headers.len(),
        forall|j: int|
            i < j < headers.len() ==> (#[trigger] headers[j]).name@ != headers[i].name@,
    ensures
        headers[i].name@ == vstd::utf8::encode_utf8(":method"@) ==> request.method@
            == crate::wire::received_text(headers[i].value@),
        headers[i].name@ == vstd::utf8::encode_utf8(":scheme"@) ==> request.scheme@
            == crate::wire::received_text(headers[i].value@),
        headers[i].name@ == vstd::utf8::encode_utf8(":authority"@) ==> request.authority@
            == crate::wire::received_text(headers[i].value@),
        headers[i].name@ == vstd::utf8::encode_utf8(":path"@) ==> request.path@
            == crate::wire::received_text(headers[i].value@),
{
    let list = crate::wire::fields(headers);
    assert(list[i] == headers[i]@);
    assert forall|j: int| i < j < list.len() implies (#[trigger] list[j]).0 != headers[i].name@ by {
        assert(list[j] == headers[j]@);
    }
    lemma_last_value_at(list, headers[i].name@, i);
}

/// A described request has nothing where no field has the name.
pub proof fn lemma_described_absence(headers: Seq<Header>, request: Http3Request, name: Seq<char>)
    requires
        crate::wire::describes(crate::wire::fields(headers), request),
        forall|j: int|
            0 <= j < headers.len() ==> (#[trigger] headers[j]).name@ != vstd::utf8::encode_utf8(
                name,
            ),
    ensures
        name == ":method"@ ==> request.method@.len() == 0,
        name == ":scheme"@ ==> request.scheme@.len() == 0,
        name == ":authority"@ ==> request.authority@.len() == 0,
        name == ":path"@ ==> request.path@.len() == 0,
{
    let list = crate::wire::fields(headers);
    assert forall|j: int| 0 <= j < list.len() implies (#[trigger] list[j]).0
        != vstd::utf8::encode_utf8(name) by {
        assert(list[j] == headers[j]@);
    }
    lemma_last_value_missing(list, vstd::utf8::encode_utf8(name));
}

/// Each of the four parts of a parsed request is the text of the last field that has its name,
/// wherever in the list this field stands and whatever stands around it.
pub proof fn a_part_is_read_by_its_name(
    headers: Vec<Header>,
    timestamp: SystemTime,
    parsed: Http3Request,
    received: Http3Request,
    i: int,
)
    requires
        call_ensures(parse_headers_at, (&headers, timestamp), parsed),
        call_ensures(parse_request_headers, (headers,), received),
        0 <= i < headers@.len(),
        forall|j: int|
            i < j < headers@.len() ==> (#[trigger] headers@[j]).name@ != headers@[i].name@,
        vstd::utf8::valid_utf8(headers@[i].value@),
    ensures
        headers@[i].name@ == vstd::utf8::encode_utf8(":method"@) ==> parsed.method@
            == vstd::utf8::decode_utf8(headers@[i].value@) && received.method@
            == vstd::utf8::decode_utf8(headers@[i].value@),
        headers@[i].name@ == vstd::utf8::encode_utf8(":scheme"@) ==> parsed.scheme@
            == vstd::utf8::decode_utf8(headers@[i].value@) && received.scheme@
            == vstd::utf8::decode_utf8(headers@[i].value@),
        headers@[i].name@ == vstd::utf8::encode_utf8(":authority"@) ==> parsed.authority@
            == vstd::utf8::decode_utf8(headers@[i].value@) && received.authority@
            == vstd::utf8::decode_utf8(headers@[i].value@),
        headers@[i].name@ == vstd::utf8::encode_utf8(":path"@) ==> parsed.path@
            == vstd::utf8::decode_utf8(headers@[i].value@) && received.path@
            == vstd::utf8::decode_utf8(headers@[i].value@),
{
    lemma_described_part(headers@, parsed, i);
    lemma_described_part(headers@, received, i);
}

/// Where the value of the last field with a name is not UTF-8, the part is the text that stands
/// for such bytes.
pub proof fn a_part_that_is_not_utf8_is_read_with_replacements(
    headers: Vec<Header>,
    timestamp: SystemTime,
    parsed: Http3Request,
    received: Http3Request,
    i: int,
)
    requires
        call_ensures(parse_headers_at, (&headers, timestamp), parsed),
        call_ensures(parse_request_headers, (headers,), received),
        0 <= i < headers@.len(),
        forall|j: int|
            i < j < headers@.len() ==> (#[trigger] headers@[j]).name@ != headers@[i].name@,
        !vstd::utf8::valid_utf8(headers@[i].value@),
    ensures
        headers@[i].name@ == vstd::utf8::encode_utf8(":method"@) ==> parsed.method@
            == crate::wire::lossy_text(headers@[i].value@) && received.method@ == parsed.method@,
        headers@[i].name@ == vstd::utf8::encode_utf8(":scheme"@) ==> parsed.scheme@
            == crate::wire::lossy_text(headers@[i].value@) && received.scheme@ == parsed.scheme@,
        headers@[i].name@ == vstd::utf8::encode_utf8(":authority"@) ==> parsed.authority@
            == crate::wire::lossy_text(headers@[i].value@) && received.authority@
            == parsed.authority@,
        headers@[i].name@ == vstd::utf8::encode_utf8(":path"@) ==> parsed.path@
            == crate::wire::lossy_text(headers@[i].value@) && received.path@ == parsed.path@,
{
    lemma_described_part(headers@, parsed, i);
    lemma_described_part(headers@, received, i);
}

/// A part is empty where no field has its name; a parsed request has no body and bears the time
/// that it was given, or one that the clock has shown.
pub proof fn a_part_that_is_missing_is_empty(
    headers: Vec<Header>,
    timestamp: SystemTime,
    parsed: Http3Request,
    received: Http3Request,
    name: Seq<char>,
)
    requires
        call_ensures(parse_headers_at, (&headers, timestamp), parsed),
        call_ensures(parse_request_headers, (headers,), received),
        forall|j: int|
            0 <= j < headers@.len() ==> (#[trigger] headers@[j]).name@ != vstd::utf8::encode_utf8(
                name,
            ),
    ensures
        name == ":method"@ ==> parsed.method@.len() == 0 && received.method@.len() == 0,
        name == ":scheme"@ ==> parsed.scheme@.len() == 0 && received.scheme@.len() == 0,
        name == ":authority"@ ==> parsed.authority@.len() == 0 && received.authority@.len() == 0,
        name == ":path"@ ==> parsed.path@.len() == 0 && received.path@.len() == 0,
        parsed.body is None && received.body is None,
        parsed.timestamp == timestamp,
        crate::clock::is_time_read(received.timestamp),
{
    lemma_described_absence(headers@, parsed, name);
    lemma_described_absence(headers@, received, name);
}

/// What a described request holds of a field that is not one of the four parts.
pub proof fn lemma_described_field(
    headers: Seq<Header>,
    request: Http3Request,
    i: int,
    text: Seq<char>,
)
    requires
        crate::wire::describes(crate::wire::fields(headers), request),
        0 <= i < headers.len(),
        !crate::wire::is_request_pseudo(headers[i].name@),
        crate::wire::received_text(headers[i].name@) == text,
        forall|j: int|
            i < j < headers.len() ==> crate::wire::received_text((#[trigger] headers[j]).name@)
                != text,
    ensures
        request.headers@.contains_key(text),
        request.headers@[text] == crate::wire::received_text(headers[i].value@),
{
    let list = crate::wire::fields(headers);
    assert(list[i] == headers[i]@);
    assert forall|j: int| i < j < list.len() implies crate::wire::received_text(
        (#[trigger] list[j]).0,
    ) != text by {
        assert(list[j] == headers[j]@);
    }
    lemma_collected_other_at(list, text, i);
}

/// A field that is not one of the four parts can be read under its name in the header fields of
/// the parsed request: the last one of that name, wherever it stands.
pub proof fn a_field_is_read_by_its_name(
    headers: Vec<Header>,
    timestamp: SystemTime,
    parsed: Http3Request,
    received: Http3Request,
    i: int,
    asked: &str,
    got: Option<&String>,
    got_received: Option<&String>,
)
    requires
        call_ensures(parse_headers_at, (&headers, timestamp), parsed),
        call_ensures(parse_request_headers, (headers,), received),
        call_ensures(HeaderMap::get, (&parsed.headers, asked), got),
        call_ensures(HeaderMap::get, (&received.headers, asked), got_received),
        0 <= i < headers@.len(),
        headers@[i].name@ != vstd::utf8::encode_utf8(":method"@),
        headers@[i].name@ != vstd::utf8::encode_utf8(":scheme"@),
        headers@[i].name@ != vstd::utf8::encode_utf8(":authority"@),
        headers@[i].name@ != vstd::utf8::encode_utf8(":path"@),
        asked@ == if vstd::utf8::valid_utf8(headers@[i].name@) {
            vstd::utf8::decode_utf8(headers@[i].name@)
        } else {
            crate::wire::lossy_text(headers@[i].name@)
        },
        forall|j: int|
            i < j < headers@.len() ==> asked@ != if vstd::utf8::valid_utf8(
                (#[trigger] headers@[j]).name@,
            ) {
                vstd::utf8::decode_utf8(headers@[j].name@)
            } else {
                crate::wire::lossy_text(headers@[j].name@)
            },
    ensures
        got is Some && got_received is Some,
        got_received->0@ == got->0@,
        vstd::utf8::valid_utf8(headers@[i].value@) ==> got->0@ == vstd::utf8::decode_utf8(
            headers@[i].value@,
        ),
        !vstd::utf8::valid_utf8(headers@[i].value@) ==> got->0@ == crate::wire::lossy_text(
            headers@[i].value@,
        ),
{
    lemma_described_field(headers@, parsed, i, asked@);
    lemma_described_field(headers@, received, i, asked@);
}

/// A described request has no header field with a name that no field of the list has.
pub proof fn lemma_described_no_field(
    headers: Seq<Header>,
    request: Http3Request,
    text: Seq<char>,
)
    requires
        crate::wire::describes(crate::wire::fields(headers), request),
        forall|j: int|
            0 <= j < headers.len() ==> crate::wire::received_text((#[trigger] headers[j]).name@)
                != text,
    ensures
        !request.headers@.contains_key(text),
{
    let list = crate::wire::fields(headers);
    assert forall|j: int| 0 <= j < list.len() implies crate::wire::received_text(
        (#[trigger] list[j]).0,
    ) != text by {
        assert(list[j] == headers[j]@);
    }
    lemma_collected_other_missing(list, text);
}

/// No header field is read that was not in the list, and none under the name of one of the four
/// parts.
pub proof fn no_field_comes_from_nowhere(
    headers: Vec<Header>,
    timestamp: SystemTime,
    parsed: Http3Request,
    received: Http3Request,
    asked: &str,
    got: Option<&String>,
    got_received: Option<&String>,
)
    requires
        call_ensures(parse_headers_at, (&headers, timestamp), parsed),
        call_ensures(parse_request_headers, (headers,), received),
        call_ensures(HeaderMap::get, (&parsed.headers, asked), got),
        call_ensures(HeaderMap::get, (&received.headers, asked), got_received),
        asked@ == ":method"@ || asked@ == ":scheme"@ || asked@ == ":authority"@ || asked@
            == ":path"@ || forall|j: int|
            0 <= j < headers@.len() ==> asked@ != if vstd::utf8::valid_utf8(
                (#[trigger] headers@[j]).name@,
            ) {
                vstd::utf8::decode_utf8(headers@[j].name@)
            } else {
                crate::wire::lossy_text(headers@[j].name@)
            },
    ensures
        got is None,
        got_received is None,
{
    if asked@ == ":method"@ || asked@ == ":scheme"@ || asked@ == ":authority"@ || asked@
        == ":path"@ {
        assert(crate::wire::is_pseudo_text(asked@));
    } else {
        lemma_described_no_field(headers@, parsed, asked@);
        lemma_described_no_field(headers@, received, asked@);
    }
}

/// A request that is sent and received is the same request: its four parts and its header fields
/// come out as they went in. Only a header field with the name of one of the four parts would not:
/// it would replace that part.
pub proof fn a_request_crosses_unchanged(
    sent: Http3Request,
    headers: Vec<Header>,
    received: Http3Request,
    asked: &str,
    got_sent: Option<&String>,
    got_received: Option<&String>,
)
    requires
        call_ensures(request_headers, (&sent,), headers),
        call_ensures(parse_request_headers, (headers,), received),
        forall|name: Seq<char>| #[trigger]
            sent.headers@.contains_key(name) ==> name != ":method"@ && name != ":scheme"@ && name
                != ":authority"@ && name != ":path"@,
        call_ensures(HeaderMap::get, (&sent.headers, asked), got_sent),
        call_ensures(HeaderMap::get, (&received.headers, asked), got_received),
    ensures
        received.method@ == sent.method@,
        received.scheme@ == sent.scheme@,
        received.authority@ == sent.authority@,
        received.path@ == sent.path@,
        got_sent is Some <==> got_received is Some,
        got_sent is Some ==> got_sent->0@ == got_received->0@,
{
    crate::wire::received_request_is_the_one_sent(sent, received);
}

} // verus!
