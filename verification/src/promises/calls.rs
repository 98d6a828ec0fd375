//! Promises on what may be asked: whatever comes in, it can be dealt with.

use bytes::Bytes;
use std::time::SystemTime;
use vstd::prelude::*;

use crate::accepting::{continue_accepting, worker_notices, AcceptEvent, AcceptState};
use crate::certificate::{temp_certificate_files, test_certificate_files, DerPair, PemPair};
use crate::certificate::{generate_temp_certificate, generate_test_certificate, CertificateFiles};
use crate::client::EnterpriseHttp3Client;
use crate::clock::date_text;
use crate::connection::{answer_request, handle_connection, ConnectionEvent, ConnectionState};
use crate::error::TquicError;
use crate::handler::{tell, Http3EventHandler, Notice};
use crate::headers::HeaderMap;
use crate::message::{Http3Request, Http3Response};
use crate::sending::{begin_sending, continue_sending, SendEvent, SendState};
use crate::server::EnterpriseHttp3Server;
use crate::service::EnterpriseHttp3;
use crate::text::{bytes_equal, decimal_text, join, text_equal};
use crate::window::WindowState;
use crate::wire::{
    parse_headers_at, parse_request_headers, request_headers, response_headers, Header,
};

verus! {

/// Every text, every number and every second can be written, and every header field set and asked
/// for.
pub proof fn every_text_can_be_dealt_with(
    n: u64,
    a: &str,
    b: &str,
    x: &[u8],
    y: &[u8],
    seconds: i64,
    error: TquicError,
    map: &mut HeaderMap,
    name: String,
    value: String,
)
    ensures
        call_requires(decimal_text, (n,)),
        call_requires(join, (a, b)),
        call_requires(text_equal, (a, b)),
        call_requires(bytes_equal, (x, y)),
        call_requires(date_text, (seconds,)),
        call_requires(TquicError::to_string, (&error,)),
        call_requires(HeaderMap::insert, (map, name, value)),
        call_requires(HeaderMap::get, (&*old(map), a)),
        call_requires(HeaderMap::contains_key, (&*old(map), a)),
        call_requires(HeaderMap::len, (&*old(map),)),
{
}

/// Every message can be made, changed, sent and received.
pub proof fn every_message_can_be_dealt_with(
    status: u64,
    method: String,
    path: String,
    time: SystemTime,
    data: &str,
    body: Bytes,
    request: Http3Request,
    response: Http3Response,
    headers: Vec<Header>,
)
    ensures
        call_requires(Http3Request::new, (method, path)),
        call_requires(Http3Request::made_at, (method, path, time)),
        call_requires(Http3Request::with_header, (request, method, path)),
        call_requires(Http3Request::with_body, (request, body)),
        call_requires(Http3Response::new, (status,)),
        call_requires(Http3Response::dated, (status, method, time)),
        call_requires(Http3Response::with_header, (response, method, path)),
        call_requires(Http3Response::with_body, (response, body)),
        call_requires(Http3Response::with_json, (response, data)),
        call_requires(Http3Response::json, (status, data)),
        call_requires(Http3Response::text, (response, data)),
        call_requires(request_headers, (&request,)),
        call_requires(response_headers, (status,)),
        call_requires(parse_headers_at, (&headers, time)),
        call_requires(parse_request_headers, (headers,)),
{
}

/// Whatever is reported of a connection, of the accepting of connections and of a sending, in
/// whatever state, there is a next step.
pub proof fn every_report_can_be_dealt_with<H: Http3EventHandler + ?Sized>(
    handler: &H,
    notice: Notice,
    state: ConnectionState,
    event: ConnectionEvent,
    accepting: AcceptState,
    accepted: AcceptEvent,
    result: Result<(), TquicError>,
    sending: SendState,
    sent: SendEvent,
    request: Http3Request,
)
    ensures
        call_requires(tell::<H>, (handler, notice)),
        call_requires(answer_request::<H>, (handler, state, request)),
        call_requires(handle_connection, (state, event)),
        call_requires(continue_accepting, (accepting, accepted)),
        call_requires(worker_notices, (result,)),
        call_requires(begin_sending, (request,)),
        call_requires(continue_sending, (sending, sent)),
{
}

/// A server and a client can be made for every address, and started, stopped, asked and reported
/// to at any time; and a certificate can be asked for at any time.
pub proof fn services_can_be_asked_at_any_time<A: Copy>(
    addr: A,
    endpoint: Result<(), String>,
    server: &mut EnterpriseHttp3Server<A>,
    made: Result<CertificateFiles, TquicError>,
    written: Result<(), std::io::Error>,
    client: &mut EnterpriseHttp3Client<A>,
    request: Http3Request,
    der: Result<DerPair, rcgen::Error>,
    pem: Result<PemPair, rcgen::Error>,
)
    ensures
        call_requires(<EnterpriseHttp3Server<A> as EnterpriseHttp3<A>>::new, (addr, endpoint)),
        call_requires(<EnterpriseHttp3Server<A> as EnterpriseHttp3<A>>::start, (server,)),
        call_requires(EnterpriseHttp3Server::<A>::start_with, (server, made)),
        call_requires(EnterpriseHttp3Server::<A>::file_written, (server, written)),
        call_requires(EnterpriseHttp3Server::<A>::tried, (server, endpoint)),
        call_requires(<EnterpriseHttp3Server<A> as EnterpriseHttp3<A>>::stop, (server,)),
        call_requires(<EnterpriseHttp3Client<A> as EnterpriseHttp3<A>>::new, (addr, endpoint)),
        call_requires(<EnterpriseHttp3Client<A> as EnterpriseHttp3<A>>::start, (client,)),
        call_requires(EnterpriseHttp3Client::<A>::tried, (client, endpoint)),
        call_requires(EnterpriseHttp3Client::<A>::told, (client,)),
        call_requires(<EnterpriseHttp3Client<A> as EnterpriseHttp3<A>>::stop, (client,)),
        call_requires(
            <EnterpriseHttp3Client<A> as EnterpriseHttp3<A>>::send_request,
            (&*old(client), request),
        ),
        call_requires(generate_temp_certificate, ()),
        call_requires(generate_test_certificate, ()),
        call_requires(temp_certificate_files, (der,)),
        call_requires(test_certificate_files, (pem,)),
{
}

/// A window can show everything, as long as it can count.
pub proof fn a_window_can_show_everything(
    window: &mut WindowState,
    request: Http3Request,
    text: String,
)
    ensures
        old(window).http3_request_count < i32::MAX ==> call_requires(
            WindowState::on_request,
            (window, &request),
        ),
        old(window).request_count < i32::MAX ==> call_requires(
            WindowState::on_button_clicked,
            (window, text),
        ),
        call_requires(WindowState::on_connection_established, (window,)),
        call_requires(WindowState::on_connection_closed, (window,)),
        call_requires(WindowState::on_error, (window, text)),
{
}

} // verus!
