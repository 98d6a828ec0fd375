//! Promises on servers and clients: how they start and stop, what they send, and which
//! certificates they use.

use vstd::prelude::*;

use crate::certificate::{
    generate_temp_certificate, generate_test_certificate, temp_certificate_files,
    test_certificate_files, CertificateFiles, DerPair, PemPair,
};
use crate::client::EnterpriseHttp3Client;
use crate::config::{create_client_config, create_server_config, TlsRole, TransportConfig};
use crate::error::TquicError;
use crate::handler::Notice;
use crate::headers::HeaderMap;
use crate::message::Http3Request;
use crate::sending::{begin_sending, continue_sending, SendAction, SendEvent, SendState};
use crate::server::EnterpriseHttp3Server;
use crate::service::{EnterpriseHttp3, ServiceAction};

verus! {

/// A step of a sending: where it leads and what is to be done.
pub type SendStep = (SendState, SendAction);

/// A request that a client takes goes out as it was given. Where no step fails, a configuration is
/// made, HTTP/3 is set up and a stream is opened. On this stream go the four parts of the request,
/// under the names that stand for them, and each of its header fields, none of them left out; and
/// then its body, if there is one, with which the stream ends. Without a body the stream ends with
/// the header fields.
pub proof fn a_request_that_is_taken_goes_out_whole<A: Copy>(
    client: &EnterpriseHttp3Client<A>,
    request: Http3Request,
    begun: SendStep,
    configured: SendStep,
    opened: SendStep,
    stream_id: u64,
    sent: SendStep,
    followed: SendStep,
    ended: SendStep,
    n: usize,
    i: usize,
    field: (&String, &String),
)
    requires
        call_ensures(
            <EnterpriseHttp3Client<A> as EnterpriseHttp3<A>>::send_request,
            (client, request),
            Ok(begun),
        ),
        call_ensures(continue_sending, (begun.0, SendEvent::Tried(Ok(()))), configured),
        call_ensures(continue_sending, (configured.0, SendEvent::Tried(Ok(()))), opened),
        call_ensures(continue_sending, (opened.0, SendEvent::StreamOpened(Ok(stream_id))), sent),
        call_ensures(continue_sending, (sent.0, SendEvent::Tried(Ok(()))), followed),
        call_ensures(continue_sending, (followed.0, SendEvent::Tried(Ok(()))), ended),
        call_ensures(HeaderMap::len, (&request.headers,), n),
        i < n ==> call_ensures(HeaderMap::entry, (&request.headers, i), field),
    ensures
        begun.1 == SendAction::CreateConfig,
        configured.1 == SendAction::CreateHttp3,
        opened.1 == SendAction::OpenStream,
        sent.1 is SendHeaders,
        sent.1->SendHeaders_stream_id == stream_id,
        sent.1->SendHeaders_fin == (request.body is None),
        sent.1->SendHeaders_headers@.len() == n + 4,
        sent.1->SendHeaders_headers@[0].name@ == vstd::utf8::encode_utf8(":method"@),
        sent.1->SendHeaders_headers@[0].value@ == vstd::utf8::encode_utf8(request.method@),
        sent.1->SendHeaders_headers@[1].name@ == vstd::utf8::encode_utf8(":scheme"@),
        sent.1->SendHeaders_headers@[1].value@ == vstd::utf8::encode_utf8(request.scheme@),
        sent.1->SendHeaders_headers@[2].name@ == vstd::utf8::encode_utf8(":authority"@),
        sent.1->SendHeaders_headers@[2].value@ == vstd::utf8::encode_utf8(request.authority@),
        sent.1->SendHeaders_headers@[3].name@ == vstd::utf8::encode_utf8(":path"@),
        sent.1->SendHeaders_headers@[3].value@ == vstd::utf8::encode_utf8(request.path@),
        i < n ==> sent.1->SendHeaders_headers@[i + 4].name@ == vstd::utf8::encode_utf8(field.0@),
        i < n ==> sent.1->SendHeaders_headers@[i + 4].value@ == vstd::utf8::encode_utf8(field.1@),
        request.body is Some ==> followed.1 is SendBody && followed.1->SendBody_stream_id
            == stream_id && followed.1->SendBody_body == request.body->0
            && followed.1->SendBody_fin == true && ended.1 == SendAction::Finish(Ok(())),
        request.body is None ==> followed.1 == SendAction::Finish(Ok(())),
{
    crate::promises::messages::lemma_request_fields(
        request,
        sent.1->SendHeaders_headers,
        i as int,
    );
}

/// A sending that is begun of itself goes the same way as one that a client has begun.
pub proof fn a_sending_begins_with_the_request<A: Copy>(
    client: &EnterpriseHttp3Client<A>,
    request: Http3Request,
    taken: SendStep,
    begun: SendStep,
)
    requires
        call_ensures(
            <EnterpriseHttp3Client<A> as EnterpriseHttp3<A>>::send_request,
            (client, request),
            Ok(taken),
        ),
        call_ensures(begin_sending, (request,), begun),
    ensures
        begun == taken,
        begun.0 == SendState::Configuring(request),
{
}

/// Where a step of a sending fails, the sending is over, with an HTTP/3 error that says which step
/// failed, and then what the driver said of it; and nothing follows, whatever is reported.
pub proof fn a_failed_sending_says_what_failed(
    request: Http3Request,
    stream_id: u64,
    body: Option<bytes::Bytes>,
    text: String,
    unconfigured: SendStep,
    unopened: SendStep,
    streamless: SendStep,
    headless: SendStep,
    bodiless: SendStep,
    event: SendEvent,
    after: SendStep,
)
    requires
        call_ensures(
            continue_sending,
            (SendState::Configuring(request), SendEvent::Tried(Err(text))),
            unconfigured,
        ),
        call_ensures(
            continue_sending,
            (SendState::Opening(request), SendEvent::Tried(Err(text))),
            unopened,
        ),
        call_ensures(
            continue_sending,
            (SendState::OpeningStream(request), SendEvent::StreamOpened(Err(text))),
            streamless,
        ),
        call_ensures(
            continue_sending,
            (SendState::SendingHeaders { stream_id, body }, SendEvent::Tried(Err(text))),
            headless,
        ),
        call_ensures(
            continue_sending,
            (SendState::SendingBody, SendEvent::Tried(Err(text))),
            bodiless,
        ),
        call_ensures(continue_sending, (SendState::Finished, event), after),
    ensures
        unconfigured.0 == SendState::Finished,
        unconfigured.1 matches SendAction::Finish(Err(TquicError::Http3(said))) && said@
            == "创建HTTP/3配置失败: "@ + text@,
        unopened.0 == SendState::Finished,
        unopened.1 matches SendAction::Finish(Err(TquicError::Http3(said))) && said@
            == "创建HTTP/3连接失败: "@ + text@,
        streamless.0 == SendState::Finished,
        streamless.1 matches SendAction::Finish(Err(TquicError::Http3(said))) && said@
            == "创建流失败: "@ + text@,
        headless.0 == SendState::Finished,
        headless.1 matches SendAction::Finish(Err(TquicError::Http3(said))) && said@
            == "发送头部失败: "@ + text@,
        bodiless.0 == SendState::Finished,
        bodiless.1 matches SendAction::Finish(Err(TquicError::Http3(said))) && said@
            == "发送请求体失败: "@ + text@,
        after == (SendState::Finished, SendAction::Wait),
{
}

/// A report that a sending does not wait for changes nothing.
pub proof fn an_unasked_report_on_sending_changes_nothing(
    state: SendState,
    event: SendEvent,
    step: SendStep,
)
    requires
        call_ensures(continue_sending, (state, event), step),
        match state {
            SendState::Configuring(_)
            | SendState::Opening(_)
            | SendState::SendingHeaders { .. }
            | SendState::SendingBody => !(event is Tried),
            SendState::OpeningStream(_) => !(event is StreamOpened),
            SendState::Finished => true,
        },
    ensures
        step == (state, SendAction::Wait),
{
}

/// A client that was made does not run, does not listen and takes no requests; one that has no
/// endpoint is not made, with what the driver said of it.
pub proof fn a_new_client_is_not_connected<A: Copy>(
    addr: A,
    text: String,
    client: EnterpriseHttp3Client<A>,
    running: bool,
    local: Option<A>,
    request: Http3Request,
    sending: Result<SendStep, TquicError>,
    made: Result<EnterpriseHttp3Client<A>, TquicError>,
    unmade: Result<EnterpriseHttp3Client<A>, TquicError>,
)
    requires
        call_ensures(
            <EnterpriseHttp3Client<A> as EnterpriseHttp3<A>>::new,
            (addr, Ok(())),
            made,
        ),
        made is Ok ==> client == made->Ok_0,
        call_ensures(
            <EnterpriseHttp3Client<A> as EnterpriseHttp3<A>>::new,
            (addr, Err(text)),
            unmade,
        ),
        call_ensures(
            <EnterpriseHttp3Client<A> as EnterpriseHttp3<A>>::is_running,
            (&client,),
            running,
        ),
        call_ensures(
            <EnterpriseHttp3Client<A> as EnterpriseHttp3<A>>::local_addr,
            (&client,),
            local,
        ),
        call_ensures(
            <EnterpriseHttp3Client<A> as EnterpriseHttp3<A>>::send_request,
            (&client, request),
            sending,
        ),
    ensures
        made is Ok,
        !running,
        local is None,
        sending matches Err(TquicError::Config(said)) && said@ == "客户端未连接"@,
        unmade matches Err(TquicError::Tquic(said)) && said@ == text@,
{
}

/// A client connects to the address that it was made with.
pub proof fn a_client_connects_to_its_server<A: Copy>(
    addr: A,
    made: Result<EnterpriseHttp3Client<A>, TquicError>,
    client: &mut EnterpriseHttp3Client<A>,
    action: ServiceAction<A>,
)
    requires
        call_ensures(<EnterpriseHttp3Client<A> as EnterpriseHttp3<A>>::new, (addr, Ok(())), made),
        made is Ok ==> *old(client) == made->Ok_0,
        call_ensures(<EnterpriseHttp3Client<A> as EnterpriseHttp3<A>>::start, (client,), action),
    ensures
        action is Connect && action->addr == addr && action->server_name@ == "localhost"@,
{
}

/// A client that is started connects to `localhost`, waits for the connection, looks up the other
/// side's address and tells the handler; then it runs and takes requests, and not before. What is
/// reported without being asked for changes nothing on the way.
pub proof fn a_client_connects_in_order<A: Copy>(
    c0: &mut EnterpriseHttp3Client<A>,
    a0: ServiceAction<A>,
    c1: &mut EnterpriseHttp3Client<A>,
    a1: ServiceAction<A>,
    c2: &mut EnterpriseHttp3Client<A>,
    a2: ServiceAction<A>,
    c3: &mut EnterpriseHttp3Client<A>,
    a3: ServiceAction<A>,
    running_before: bool,
    running_late: bool,
    c4: &mut EnterpriseHttp3Client<A>,
    a4: ServiceAction<A>,
    running: bool,
    request: Http3Request,
    sending: Result<SendStep, TquicError>,
    early: &mut EnterpriseHttp3Client<A>,
    too_early: ServiceAction<A>,
    late: &mut EnterpriseHttp3Client<A>,
    tried: Result<(), String>,
    too_late: ServiceAction<A>,
)
    requires
        call_ensures(
            <EnterpriseHttp3Client<A> as EnterpriseHttp3<A>>::is_running,
            (&*old(c0),),
            running_before,
        ),
        call_ensures(<EnterpriseHttp3Client<A> as EnterpriseHttp3<A>>::start, (c0,), a0),
        *old(c1) == *final(c0),
        call_ensures(EnterpriseHttp3Client::<A>::tried, (c1, Ok(())), a1),
        *old(c2) == *final(c1),
        call_ensures(EnterpriseHttp3Client::<A>::tried, (c2, Ok(())), a2),
        *old(c3) == *final(c2),
        call_ensures(EnterpriseHttp3Client::<A>::tried, (c3, Ok(())), a3),
        call_ensures(
            <EnterpriseHttp3Client<A> as EnterpriseHttp3<A>>::is_running,
            (&*final(c3),),
            running_late,
        ),
        *old(c4) == *final(c3),
        call_ensures(EnterpriseHttp3Client::<A>::told, (c4,), a4),
        call_ensures(
            <EnterpriseHttp3Client<A> as EnterpriseHttp3<A>>::is_running,
            (&*final(c4),),
            running,
        ),
        call_ensures(
            <EnterpriseHttp3Client<A> as EnterpriseHttp3<A>>::send_request,
            (&*final(c4), request),
            sending,
        ),
        *old(early) == *final(c0) || *old(early) == *final(c1) || *old(early) == *final(c2)
            || *old(early) == *final(c4),
        call_ensures(EnterpriseHttp3Client::<A>::told, (early,), too_early),
        *old(late) == *final(c3) || *old(late) == *final(c4),
        call_ensures(EnterpriseHttp3Client::<A>::tried, (late, tried), too_late),
    ensures
        a0 is Connect && a0->server_name@ == "localhost"@,
        a1 == ServiceAction::<A>::AwaitConnection,
        a2 == ServiceAction::<A>::AskPeerAddress,
        a3 == ServiceAction::<A>::Notify(Notice::Established),
        running_late == running_before,
        a4 == ServiceAction::<A>::Finish(Ok(())),
        running,
        sending is Ok,
        too_early == ServiceAction::<A>::Wait && final(early)@ == old(early)@,
        too_late == ServiceAction::<A>::Wait && final(late)@ == old(late)@,
{
}

/// A client takes requests, and runs, after a report exactly where it did before, but for the
/// report that the handler was told, which connects it.
pub proof fn a_report_does_not_disconnect<A: Copy>(
    client: &mut EnterpriseHttp3Client<A>,
    tried: Result<(), String>,
    action: ServiceAction<A>,
    told: &mut EnterpriseHttp3Client<A>,
    told_action: ServiceAction<A>,
    request: Http3Request,
    before: Result<SendStep, TquicError>,
    after: Result<SendStep, TquicError>,
    running_before: bool,
    running_after: bool,
    told_before: Result<SendStep, TquicError>,
    told_after: Result<SendStep, TquicError>,
)
    requires
        call_ensures(EnterpriseHttp3Client::<A>::tried, (client, tried), action),
        call_ensures(EnterpriseHttp3Client::<A>::told, (told,), told_action),
        call_ensures(
            <EnterpriseHttp3Client<A> as EnterpriseHttp3<A>>::send_request,
            (&*old(client), request),
            before,
        ),
        call_ensures(
            <EnterpriseHttp3Client<A> as EnterpriseHttp3<A>>::send_request,
            (&*final(client), request),
            after,
        ),
        call_ensures(
            <EnterpriseHttp3Client<A> as EnterpriseHttp3<A>>::is_running,
            (&*old(client),),
            running_before,
        ),
        call_ensures(
            <EnterpriseHttp3Client<A> as EnterpriseHttp3<A>>::is_running,
            (&*final(client),),
            running_after,
        ),
        call_ensures(
            <EnterpriseHttp3Client<A> as EnterpriseHttp3<A>>::send_request,
            (&*old(told), request),
            told_before,
        ),
        call_ensures(
            <EnterpriseHttp3Client<A> as EnterpriseHttp3<A>>::send_request,
            (&*final(told), request),
            told_after,
        ),
    ensures
        before is Ok <==> after is Ok,
        running_before == running_after,
        told_action == ServiceAction::<A>::Finish(Ok(())) || told_action == ServiceAction::<
            A,
        >::Wait,
        told_action == ServiceAction::<A>::Finish(Ok(())) ==> told_after is Ok,
        told_action == ServiceAction::<A>::Wait ==> (told_before is Ok <==> told_after is Ok),
{
}

/// Whether a client takes a request does not depend on the request, and a request that is refused
/// is refused because there is no connection.
pub proof fn a_client_takes_every_request_or_none<A: Copy>(
    client: &EnterpriseHttp3Client<A>,
    request: Http3Request,
    sending: Result<SendStep, TquicError>,
    other: Http3Request,
    other_sending: Result<SendStep, TquicError>,
    local: Option<A>,
)
    requires
        call_ensures(
            <EnterpriseHttp3Client<A> as EnterpriseHttp3<A>>::send_request,
            (client, request),
            sending,
        ),
        call_ensures(
            <EnterpriseHttp3Client<A> as EnterpriseHttp3<A>>::send_request,
            (client, other),
            other_sending,
        ),
        call_ensures(
            <EnterpriseHttp3Client<A> as EnterpriseHttp3<A>>::local_addr,
            (client,),
            local,
        ),
    ensures
        sending is Ok <==> other_sending is Ok,
        sending is Err ==> sending->Err_0 is Config && sending->Err_0->Config_0@
            == "客户端未连接"@,
        local is None,
{
}

/// A client that fails to connect, to wait or to look up the address gives up with what the driver
/// said; it runs no more than before.
pub proof fn a_client_that_fails_gives_up<A: Copy>(
    c0: &mut EnterpriseHttp3Client<A>,
    a0: ServiceAction<A>,
    c1: &mut EnterpriseHttp3Client<A>,
    a1: ServiceAction<A>,
    c2: &mut EnterpriseHttp3Client<A>,
    a2: ServiceAction<A>,
    text: String,
    failing: &mut EnterpriseHttp3Client<A>,
    failed: ServiceAction<A>,
    running_before: bool,
    running: bool,
    late: &mut EnterpriseHttp3Client<A>,
    tried: Result<(), String>,
    too_late: ServiceAction<A>,
)
    requires
        *old(late) == *final(failing),
        call_ensures(EnterpriseHttp3Client::<A>::tried, (late, tried), too_late),
        call_ensures(<EnterpriseHttp3Client<A> as EnterpriseHttp3<A>>::start, (c0,), a0),
        *old(c1) == *final(c0),
        call_ensures(EnterpriseHttp3Client::<A>::tried, (c1, Ok(())), a1),
        *old(c2) == *final(c1),
        call_ensures(EnterpriseHttp3Client::<A>::tried, (c2, Ok(())), a2),
        *old(failing) == *final(c0) || *old(failing) == *final(c1) || *old(failing)
            == *final(c2),
        call_ensures(EnterpriseHttp3Client::<A>::tried, (failing, Err(text)), failed),
        call_ensures(
            <EnterpriseHttp3Client<A> as EnterpriseHttp3<A>>::is_running,
            (&*old(c0),),
            running_before,
        ),
        call_ensures(
            <EnterpriseHttp3Client<A> as EnterpriseHttp3<A>>::is_running,
            (&*final(failing),),
            running,
        ),
    ensures
        failed matches ServiceAction::Finish(Err(TquicError::Tquic(said))) && said@ == text@,
        running == running_before,
        too_late == ServiceAction::<A>::Wait,
{
}

/// A client that is stopped does not run and takes no requests. Where it took requests before, the
/// handler is told that the connection is gone, and then the connection is closed, without an
/// error, because the client shuts down; where it took none, there is nothing to do.
pub proof fn a_client_that_is_stopped_is_disconnected<A: Copy>(
    client: &mut EnterpriseHttp3Client<A>,
    actions: Vec<ServiceAction<A>>,
    request: Http3Request,
    before: Result<SendStep, TquicError>,
    after: Result<SendStep, TquicError>,
    running: bool,
    again: &mut EnterpriseHttp3Client<A>,
    no_actions: Vec<ServiceAction<A>>,
)
    requires
        call_ensures(
            <EnterpriseHttp3Client<A> as EnterpriseHttp3<A>>::stop,
            (client,),
            actions,
        ),
        call_ensures(
            <EnterpriseHttp3Client<A> as EnterpriseHttp3<A>>::send_request,
            (&*old(client), request),
            before,
        ),
        call_ensures(
            <EnterpriseHttp3Client<A> as EnterpriseHttp3<A>>::send_request,
            (&*final(client), request),
            after,
        ),
        call_ensures(
            <EnterpriseHttp3Client<A> as EnterpriseHttp3<A>>::is_running,
            (&*final(client),),
            running,
        ),
        *old(again) == *final(client),
        call_ensures(
            <EnterpriseHttp3Client<A> as EnterpriseHttp3<A>>::stop,
            (again,),
            no_actions,
        ),
    ensures
        !running,
        after matches Err(TquicError::Config(said)) && said@ == "客户端未连接"@,
        before is Err ==> actions@.len() == 0,
        before is Ok ==> actions@.len() == 2,
        before is Ok ==> actions@[0] == ServiceAction::<A>::Notify(Notice::Closed),
        before is Ok ==> actions@[1] is CloseConnection && !actions@[1]->app && actions@[1]->code
            == 0 && actions@[1]->reason@ == vstd::utf8::encode_utf8("client_shutdown"@),
        no_actions@.len() == 0,
{
}

/// Whatever becomes of a client, it connects to the address that it connected to before; and while
/// it is started anew it takes requests exactly where it took them before.
pub proof fn a_client_keeps_its_server<A: Copy>(
    c0: &mut EnterpriseHttp3Client<A>,
    a0: ServiceAction<A>,
    tried: Result<(), String>,
    c1: &mut EnterpriseHttp3Client<A>,
    a1: ServiceAction<A>,
    actions: Vec<ServiceAction<A>>,
    c2: &mut EnterpriseHttp3Client<A>,
    a2: ServiceAction<A>,
    request: Http3Request,
    before: Result<SendStep, TquicError>,
    after: Result<SendStep, TquicError>,
)
    requires
        call_ensures(<EnterpriseHttp3Client<A> as EnterpriseHttp3<A>>::start, (c0,), a0),
        call_ensures(EnterpriseHttp3Client::<A>::tried, (c1, tried), a1) || call_ensures(
            EnterpriseHttp3Client::<A>::told,
            (c1,),
            a1,
        ) || call_ensures(
            <EnterpriseHttp3Client<A> as EnterpriseHttp3<A>>::stop,
            (c1,),
            actions,
        ),
        old(c1)@.remote_addr == final(c0)@.remote_addr,
        *old(c2) == *final(c1),
        call_ensures(<EnterpriseHttp3Client<A> as EnterpriseHttp3<A>>::start, (c2,), a2),
        call_ensures(
            <EnterpriseHttp3Client<A> as EnterpriseHttp3<A>>::send_request,
            (&*old(c0), request),
            before,
        ),
        call_ensures(
            <EnterpriseHttp3Client<A> as EnterpriseHttp3<A>>::send_request,
            (&*final(c0), request),
            after,
        ),
    ensures
        a0 is Connect && a2 is Connect && a2->addr == a0->addr,
        before is Ok <==> after is Ok,
{
}

/// A server that was made does not run and sends no requests; its address is the one that it was
/// made with, and it can always be made.
pub proof fn a_new_server_does_not_run<A: Copy>(
    addr: A,
    endpoint: Result<(), String>,
    made: Result<EnterpriseHttp3Server<A>, TquicError>,
    server: EnterpriseHttp3Server<A>,
    running: bool,
    local: Option<A>,
    request: Http3Request,
    sending: Result<SendStep, TquicError>,
)
    requires
        call_ensures(
            <EnterpriseHttp3Server<A> as EnterpriseHttp3<A>>::new,
            (addr, endpoint),
            made,
        ),
        made is Ok ==> server == made->Ok_0,
        call_ensures(
            <EnterpriseHttp3Server<A> as EnterpriseHttp3<A>>::is_running,
            (&server,),
            running,
        ),
        call_ensures(
            <EnterpriseHttp3Server<A> as EnterpriseHttp3<A>>::local_addr,
            (&server,),
            local,
        ),
        call_ensures(
            <EnterpriseHttp3Server<A> as EnterpriseHttp3<A>>::send_request,
            (&server, request),
            sending,
        ),
    ensures
        made is Ok,
        !running,
        local == Some(addr),
        sending matches Err(TquicError::Config(said)) && said@ == "服务器不支持发送请求"@,
{
}

/// No server sends a request, whatever has become of it.
pub proof fn a_server_sends_no_request<A: Copy>(
    server: &EnterpriseHttp3Server<A>,
    request: Http3Request,
    sending: Result<SendStep, TquicError>,
)
    requires
        call_ensures(
            <EnterpriseHttp3Server<A> as EnterpriseHttp3<A>>::send_request,
            (server, request),
            sending,
        ),
    ensures
        sending matches Err(TquicError::Config(said)) && said@ == "服务器不支持发送请求"@,
{
}

/// A start that is over at once is over because `rcgen`, asked for a certificate for `localhost`,
/// failed, and says so with the text of that failure. Otherwise a file is to be written.
pub proof fn a_start_fails_only_with_its_certificate<A: Copy>(
    server: &mut EnterpriseHttp3Server<A>,
    action: ServiceAction<A>,
    made: Result<CertificateFiles, TquicError>,
)
    requires
        call_ensures(<EnterpriseHttp3Server<A> as EnterpriseHttp3<A>>::start, (server,), action),
        call_ensures(generate_temp_certificate, (), made),
    ensures
        action is WriteFile || action is Finish,
        action is Finish ==> exists|names: Vec<String>, cause: rcgen::Error, text: String|
            names@.len() == 1 && names@[0]@ == "localhost"@
                && #[trigger] crate::certificate::is_der_reply_for(names, Err(cause))
                && #[trigger] vstd::string::to_string_from_display_ensures::<rcgen::Error>(
                &cause,
                text,
            ) && action == ServiceAction::<A>::Finish(Err(TquicError::Certificate(text))),
        made is Err ==> exists|names: Vec<String>, cause: rcgen::Error, text: String|
            names@.len() == 1 && names@[0]@ == "localhost"@
                && #[trigger] crate::certificate::is_der_reply_for(names, Err(cause))
                && #[trigger] vstd::string::to_string_from_display_ensures::<rcgen::Error>(
                &cause,
                text,
            ) && made == Err::<CertificateFiles, TquicError>(TquicError::Certificate(text)),
{
    if action is Finish {
        let failed = choose|made: Result<CertificateFiles, TquicError>|
            crate::certificate::is_temp_certificate(made) && #[trigger] old(server)@.starts(
                made,
                final(server)@,
                action,
            );
        lemma_failed_certificate(failed);
    }
    if made is Err {
        lemma_failed_certificate(made);
    }
}

proof fn lemma_failed_certificate(made: Result<CertificateFiles, TquicError>)
    requires
        crate::certificate::is_temp_certificate(made),
        made is Err,
    ensures
        exists|names: Vec<String>, cause: rcgen::Error, text: String|
            names@.len() == 1 && names@[0]@ == "localhost"@
                && #[trigger] crate::certificate::is_der_reply_for(names, Err(cause))
                && #[trigger] vstd::string::to_string_from_display_ensures::<rcgen::Error>(
                &cause,
                text,
            ) && made == Err::<CertificateFiles, TquicError>(TquicError::Certificate(text)),
{
    let (names, reply) = choose|names: Vec<String>, reply: Result<DerPair, rcgen::Error>|
        crate::certificate::are_temp_names(names@)
            && #[trigger] crate::certificate::is_der_reply_for(names, reply)
            && crate::certificate::follows_temp_reply(reply, made);
    let cause = reply->Err_0;
    let text = made->Err_0->Certificate_0;
    assert(reply == Err::<DerPair, rcgen::Error>(cause));
    assert(crate::certificate::is_der_reply_for(names, Err(cause)));
    assert(vstd::string::to_string_from_display_ensures::<rcgen::Error>(&cause, text));
}

/// What is reported without being asked for changes nothing: a step while a file is written, a
/// file while a step is taken, and either before a start and after its end.
pub proof fn an_unasked_report_to_a_server_changes_nothing<A: Copy>(
    addr: A,
    endpoint: Result<(), String>,
    made: Result<EnterpriseHttp3Server<A>, TquicError>,
    files: CertificateFiles,
    r0: &mut EnterpriseHttp3Server<A>,
    a0: ServiceAction<A>,
    r1: &mut EnterpriseHttp3Server<A>,
    a1: ServiceAction<A>,
    r2: &mut EnterpriseHttp3Server<A>,
    a2: ServiceAction<A>,
    r3: &mut EnterpriseHttp3Server<A>,
    a3: ServiceAction<A>,
    r4: &mut EnterpriseHttp3Server<A>,
    a4: ServiceAction<A>,
    r5: &mut EnterpriseHttp3Server<A>,
    a5: ServiceAction<A>,
    r6: &mut EnterpriseHttp3Server<A>,
    a6: ServiceAction<A>,
    stepping: &mut EnterpriseHttp3Server<A>,
    tried: Result<(), String>,
    step_action: ServiceAction<A>,
    writing: &mut EnterpriseHttp3Server<A>,
    written: Result<(), std::io::Error>,
    write_action: ServiceAction<A>,
)
    requires
        call_ensures(
            <EnterpriseHttp3Server<A> as EnterpriseHttp3<A>>::new,
            (addr, endpoint),
            made,
        ),
        made is Ok,
        call_ensures(EnterpriseHttp3Server::<A>::start_with, (r0, Ok(files)), a0),
        *old(r1) == *final(r0),
        call_ensures(EnterpriseHttp3Server::<A>::file_written, (r1, Ok(())), a1),
        *old(r2) == *final(r1),
        call_ensures(EnterpriseHttp3Server::<A>::file_written, (r2, Ok(())), a2),
        *old(r3) == *final(r2),
        call_ensures(EnterpriseHttp3Server::<A>::tried, (r3, Ok(())), a3),
        *old(r4) == *final(r3),
        call_ensures(EnterpriseHttp3Server::<A>::tried, (r4, Ok(())), a4),
        *old(r5) == *final(r4),
        call_ensures(EnterpriseHttp3Server::<A>::tried, (r5, Ok(())), a5),
        *old(r6) == *final(r5),
        call_ensures(EnterpriseHttp3Server::<A>::tried, (r6, Ok(())), a6),
        *old(stepping) == *final(r0) || *old(stepping) == *final(r1) || *old(stepping)
            == *final(r6) || *old(stepping) == made->Ok_0,
        call_ensures(EnterpriseHttp3Server::<A>::tried, (stepping, tried), step_action),
        *old(writing) == *final(r2) || *old(writing) == *final(r3) || *old(writing) == *final(r4)
            || *old(writing) == *final(r5) || *old(writing) == *final(r6) || *old(writing)
            == made->Ok_0,
        call_ensures(EnterpriseHttp3Server::<A>::file_written, (writing, written), write_action),
    ensures
        step_action == ServiceAction::<A>::Wait && final(stepping)@ == old(stepping)@,
        write_action == ServiceAction::<A>::Wait && final(writing)@ == old(writing)@,
{
}

/// A start writes a certificate for `localhost` and the key that came with it, and the
/// configuration that it hands out makes TLS load these files: the certificate from the file that
/// was written first, and its key from the one that was written next. Both sides of a connection get the same limits, speak HTTP/3 alone and send no early
/// data.
pub proof fn a_start_configures_what_it_has_written<A: Copy>(
    r0: &mut EnterpriseHttp3Server<A>,
    a0: ServiceAction<A>,
    r1: &mut EnterpriseHttp3Server<A>,
    a1: ServiceAction<A>,
    r2: &mut EnterpriseHttp3Server<A>,
    a2: ServiceAction<A>,
)
    requires
        call_ensures(<EnterpriseHttp3Server<A> as EnterpriseHttp3<A>>::start, (r0,), a0),
        !(a0 is Finish),
        *old(r1) == *final(r0),
        call_ensures(EnterpriseHttp3Server::<A>::file_written, (r1, Ok(())), a1),
        *old(r2) == *final(r1),
        call_ensures(EnterpriseHttp3Server::<A>::file_written, (r2, Ok(())), a2),
    ensures
        a0 is WriteFile && a1 is WriteFile && a2 is BuildConfig,
        exists|names: Vec<String>, pair: DerPair|
            names@.len() == 1 && names@[0]@ == "localhost"@
                && #[trigger] crate::certificate::is_der_reply_for(names, Ok(pair))
                && a0->WriteFile_0.contents@ == pair.certificate@ && a1->WriteFile_0.contents@
                == pair.key@,
        a0->WriteFile_0.path@ == "temp_cert.der"@,
        a0->WriteFile_0.contents@.len() > 0 && a0->WriteFile_0.contents@[0] == 0x30,
        a1->WriteFile_0.path@ == "temp_key.der"@,
        a1->WriteFile_0.contents@.len() > 0 && a1->WriteFile_0.contents@[0] == 0x30,
        a2->BuildConfig_0.tls is Server,
        a2->BuildConfig_0.tls->certificate_path@ == a0->WriteFile_0.path@,
        a2->BuildConfig_0.tls->key_path@ == a1->WriteFile_0.path@,
        a2->BuildConfig_0.limits.max_idle_timeout == 30_000,
        a2->BuildConfig_0.limits.recv_udp_payload_size == 1350,
        a2->BuildConfig_0.limits.initial_max_data == 10_000_000,
        a2->BuildConfig_0.limits.initial_max_stream_data_bidi_local == 1_000_000,
        a2->BuildConfig_0.limits.initial_max_stream_data_bidi_remote == 1_000_000,
        a2->BuildConfig_0.limits.initial_max_streams_bidi == 100,
        a2->BuildConfig_0.limits.initial_max_streams_uni == 100,
        a2->BuildConfig_0.protocols@.len() == 1,
        a2->BuildConfig_0.protocols@[0]@ == vstd::utf8::encode_utf8("h3"@),
        !a2->BuildConfig_0.early_data,
{
    let made = choose|made: Result<CertificateFiles, TquicError>|
        crate::certificate::is_temp_certificate(made) && #[trigger] old(r0)@.starts(
            made,
            final(r0)@,
            a0,
        );
    lemma_made_certificate(made);
}

proof fn lemma_made_certificate(made: Result<CertificateFiles, TquicError>)
    requires
        crate::certificate::is_temp_certificate(made),
        made is Ok,
    ensures
        exists|names: Vec<String>, pair: DerPair|
            names@.len() == 1 && names@[0]@ == "localhost"@
                && #[trigger] crate::certificate::is_der_reply_for(names, Ok(pair))
                && made->Ok_0.certificate.contents@ == pair.certificate@
                && made->Ok_0.key.contents@ == pair.key@,
{
    let (names, reply) = choose|names: Vec<String>, reply: Result<DerPair, rcgen::Error>|
        crate::certificate::are_temp_names(names@)
            && #[trigger] crate::certificate::is_der_reply_for(names, reply)
            && crate::certificate::follows_temp_reply(reply, made);
    let pair = reply->Ok_0;
    assert(reply == Ok::<DerPair, rcgen::Error>(pair));
    assert(crate::certificate::is_der_reply_for(names, Ok(pair)));
}

/// A start with files that were made writes these files, the certificate first; a start without
/// files is over, with the error that there are none.
pub proof fn a_start_writes_what_it_was_given<A: Copy>(
    files: CertificateFiles,
    r0: &mut EnterpriseHttp3Server<A>,
    a0: ServiceAction<A>,
    r1: &mut EnterpriseHttp3Server<A>,
    a1: ServiceAction<A>,
    error: TquicError,
    r2: &mut EnterpriseHttp3Server<A>,
    a2: ServiceAction<A>,
)
    requires
        call_ensures(EnterpriseHttp3Server::<A>::start_with, (r0, Ok(files)), a0),
        *old(r1) == *final(r0),
        call_ensures(EnterpriseHttp3Server::<A>::file_written, (r1, Ok(())), a1),
        call_ensures(EnterpriseHttp3Server::<A>::start_with, (r2, Err(error)), a2),
    ensures
        a0 == ServiceAction::<A>::WriteFile(files.certificate),
        a1 == ServiceAction::<A>::WriteFile(files.key),
        a2 == ServiceAction::<A>::Finish(Err(error)),
{
}

/// When the files are written, the configuration is made, the endpoint is opened, it listens on
/// the address of the server and is asked for its address; then the server serves and runs, and
/// not before.
pub proof fn a_server_starts_in_order<A: Copy>(
    files: CertificateFiles,
    r0: &mut EnterpriseHttp3Server<A>,
    local: Option<A>,
    running_before: bool,
    a0: ServiceAction<A>,
    r1: &mut EnterpriseHttp3Server<A>,
    a1: ServiceAction<A>,
    r2: &mut EnterpriseHttp3Server<A>,
    a2: ServiceAction<A>,
    r3: &mut EnterpriseHttp3Server<A>,
    a3: ServiceAction<A>,
    r4: &mut EnterpriseHttp3Server<A>,
    a4: ServiceAction<A>,
    r5: &mut EnterpriseHttp3Server<A>,
    a5: ServiceAction<A>,
    running_late: bool,
    r6: &mut EnterpriseHttp3Server<A>,
    a6: ServiceAction<A>,
    running: bool,
)
    requires
        call_ensures(
            <EnterpriseHttp3Server<A> as EnterpriseHttp3<A>>::local_addr,
            (&*old(r0),),
            local,
        ),
        call_ensures(
            <EnterpriseHttp3Server<A> as EnterpriseHttp3<A>>::is_running,
            (&*old(r0),),
            running_before,
        ),
        call_ensures(EnterpriseHttp3Server::<A>::start_with, (r0, Ok(files)), a0),
        *old(r1) == *final(r0),
        call_ensures(EnterpriseHttp3Server::<A>::file_written, (r1, Ok(())), a1),
        *old(r2) == *final(r1),
        call_ensures(EnterpriseHttp3Server::<A>::file_written, (r2, Ok(())), a2),
        *old(r3) == *final(r2),
        call_ensures(EnterpriseHttp3Server::<A>::tried, (r3, Ok(())), a3),
        *old(r4) == *final(r3),
        call_ensures(EnterpriseHttp3Server::<A>::tried, (r4, Ok(())), a4),
        *old(r5) == *final(r4),
        call_ensures(EnterpriseHttp3Server::<A>::tried, (r5, Ok(())), a5),
        call_ensures(
            <EnterpriseHttp3Server<A> as EnterpriseHttp3<A>>::is_running,
            (&*final(r5),),
            running_late,
        ),
        *old(r6) == *final(r5),
        call_ensures(EnterpriseHttp3Server::<A>::tried, (r6, Ok(())), a6),
        call_ensures(
            <EnterpriseHttp3Server<A> as EnterpriseHttp3<A>>::is_running,
            (&*final(r6),),
            running,
        ),
    ensures
        a2 is BuildConfig,
        a3 == ServiceAction::<A>::OpenEndpoint,
        local is Some && a4 == ServiceAction::<A>::Listen(local->0),
        a5 == ServiceAction::<A>::AskLocalAddress,
        running_late == running_before,
        a6 == ServiceAction::<A>::Serve,
        running,
{
}

/// A start of which a step fails is over, with the error of that step, and the server runs no more
/// than before. What is reported after the end changes nothing.
pub proof fn a_server_that_fails_gives_up<A: Copy>(
    files: CertificateFiles,
    r0: &mut EnterpriseHttp3Server<A>,
    a0: ServiceAction<A>,
    r1: &mut EnterpriseHttp3Server<A>,
    a1: ServiceAction<A>,
    r2: &mut EnterpriseHttp3Server<A>,
    a2: ServiceAction<A>,
    r3: &mut EnterpriseHttp3Server<A>,
    a3: ServiceAction<A>,
    r4: &mut EnterpriseHttp3Server<A>,
    a4: ServiceAction<A>,
    r5: &mut EnterpriseHttp3Server<A>,
    a5: ServiceAction<A>,
    error: std::io::Error,
    unwritten: &mut EnterpriseHttp3Server<A>,
    stopped: ServiceAction<A>,
    text: String,
    failing: &mut EnterpriseHttp3Server<A>,
    failed: ServiceAction<A>,
    running_before: bool,
    running: bool,
    running_too: bool,
    late: &mut EnterpriseHttp3Server<A>,
    tried: Result<(), String>,
    too_late: ServiceAction<A>,
)
    requires
        call_ensures(EnterpriseHttp3Server::<A>::start_with, (r0, Ok(files)), a0),
        *old(r1) == *final(r0),
        call_ensures(EnterpriseHttp3Server::<A>::file_written, (r1, Ok(())), a1),
        *old(r2) == *final(r1),
        call_ensures(EnterpriseHttp3Server::<A>::file_written, (r2, Ok(())), a2),
        *old(r3) == *final(r2),
        call_ensures(EnterpriseHttp3Server::<A>::tried, (r3, Ok(())), a3),
        *old(r4) == *final(r3),
        call_ensures(EnterpriseHttp3Server::<A>::tried, (r4, Ok(())), a4),
        *old(r5) == *final(r4),
        call_ensures(EnterpriseHttp3Server::<A>::tried, (r5, Ok(())), a5),
        *old(unwritten) == *final(r0) || *old(unwritten) == *final(r1),
        call_ensures(
            EnterpriseHttp3Server::<A>::file_written,
            (unwritten, Err(error)),
            stopped,
        ),
        *old(failing) == *final(r2) || *old(failing) == *final(r3) || *old(failing) == *final(r4)
            || *old(failing) == *final(r5),
        call_ensures(EnterpriseHttp3Server::<A>::tried, (failing, Err(text)), failed),
        call_ensures(
            <EnterpriseHttp3Server<A> as EnterpriseHttp3<A>>::is_running,
            (&*old(r0),),
            running_before,
        ),
        call_ensures(
            <EnterpriseHttp3Server<A> as EnterpriseHttp3<A>>::is_running,
            (&*final(unwritten),),
            running,
        ),
        call_ensures(
            <EnterpriseHttp3Server<A> as EnterpriseHttp3<A>>::is_running,
            (&*final(failing),),
            running_too,
        ),
        *old(late) == *final(unwritten) || *old(late) == *final(failing),
        call_ensures(EnterpriseHttp3Server::<A>::tried, (late, tried), too_late),
    ensures
        stopped == ServiceAction::<A>::Finish(Err(TquicError::Io(error))),
        failed matches ServiceAction::Finish(Err(TquicError::Tquic(said))) && said@ == text@,
        running == running_before,
        running_too == running_before,
        too_late == ServiceAction::<A>::Wait,
{
}

/// A server that is stopped does not run, and there is nothing else to do. Whatever becomes of a
/// server, its address stays.
pub proof fn a_server_keeps_its_address<A: Copy>(
    stopping: &mut EnterpriseHttp3Server<A>,
    actions: Vec<ServiceAction<A>>,
    running: bool,
    server: &mut EnterpriseHttp3Server<A>,
    action: ServiceAction<A>,
    made: Result<CertificateFiles, TquicError>,
    written: Result<(), std::io::Error>,
    tried: Result<(), String>,
    before: Option<A>,
    after: Option<A>,
)
    requires
        call_ensures(
            <EnterpriseHttp3Server<A> as EnterpriseHttp3<A>>::stop,
            (stopping,),
            actions,
        ),
        call_ensures(
            <EnterpriseHttp3Server<A> as EnterpriseHttp3<A>>::is_running,
            (&*final(stopping),),
            running,
        ),
        call_ensures(
            <EnterpriseHttp3Server<A> as EnterpriseHttp3<A>>::start,
            (server,),
            action,
        ) || call_ensures(EnterpriseHttp3Server::<A>::start_with, (server, made), action)
            || call_ensures(EnterpriseHttp3Server::<A>::file_written, (server, written), action)
            || call_ensures(EnterpriseHttp3Server::<A>::tried, (server, tried), action)
            || server == stopping,
        call_ensures(
            <EnterpriseHttp3Server<A> as EnterpriseHttp3<A>>::local_addr,
            (&*old(server),),
            before,
        ),
        call_ensures(
            <EnterpriseHttp3Server<A> as EnterpriseHttp3<A>>::local_addr,
            (&*final(server),),
            after,
        ),
    ensures
        actions@.len() == 0,
        !running,
        before is Some && after == before,
{
}

/// Both sides are configured alike but for their part in TLS: a client takes any certificate.
pub proof fn both_configurations_fit(server: TransportConfig, client: TransportConfig)
    requires
        call_ensures(create_server_config, (), server),
        call_ensures(create_client_config, (), client),
    ensures
        server.limits == client.limits,
        server.protocols@.len() == 1 && client.protocols@.len() == 1,
        server.protocols@[0]@ == vstd::utf8::encode_utf8("h3"@),
        client.protocols@[0]@ == server.protocols@[0]@,
        !server.early_data && !client.early_data,
        server.tls is Server && server.tls->certificate_path@ == "temp_cert.der"@
            && server.tls->key_path@ == "temp_key.der"@,
        client.tls == (TlsRole::Client { verify: false }),
{
}

/// A certificate and its key are kept as they came, each in its own file.
pub proof fn certificates_are_kept_as_they_came(
    der: DerPair,
    kept: Result<CertificateFiles, TquicError>,
    pem: PemPair,
    kept_pem: Result<CertificateFiles, rcgen::Error>,
)
    requires
        call_ensures(temp_certificate_files, (Ok(der),), kept),
        call_ensures(test_certificate_files, (Ok(pem),), kept_pem),
    ensures
        kept is Ok && kept_pem is Ok,
        kept->Ok_0.certificate.path@ == "temp_cert.der"@,
        kept->Ok_0.certificate.contents@ == der.certificate@,
        kept->Ok_0.key.path@ == "temp_key.der"@,
        kept->Ok_0.key.contents@ == der.key@,
        kept_pem->Ok_0.certificate.path@ == "temp_cert.pem"@,
        kept_pem->Ok_0.certificate.contents@ == vstd::utf8::encode_utf8(pem.certificate@),
        kept_pem->Ok_0.key.path@ == "temp_key.pem"@,
        kept_pem->Ok_0.key.contents@ == vstd::utf8::encode_utf8(pem.key@),
{
}

/// Where no certificate came, there are no files, and the error is the one that came, or has its
/// text.
pub proof fn a_failed_certificate_says_why(
    error: rcgen::Error,
    kept: Result<CertificateFiles, TquicError>,
    kept_pem: Result<CertificateFiles, rcgen::Error>,
)
    requires
        call_ensures(temp_certificate_files, (Err(error),), kept),
        call_ensures(test_certificate_files, (Err(error),), kept_pem),
    ensures
        kept matches Err(TquicError::Certificate(text))
            && vstd::string::to_string_from_display_ensures::<rcgen::Error>(&error, text),
        kept_pem == Err::<CertificateFiles, rcgen::Error>(error),
{
}

proof fn lemma_localhost_bytes()
    ensures
        crate::certificate::der_host_name("localhost"@) == seq![
            0x82u8,
            9,
            0x6c,
            0x6f,
            0x63,
            0x61,
            0x6c,
            0x68,
            0x6f,
            0x73,
            0x74,
        ],
{
    reveal_strlit("localhost");
    assert("localhost"@.len() == 9);
    assert(vstd::utf8::is_ascii_chars("localhost"@));
    vstd::utf8::is_ascii_chars_encode_utf8("localhost"@);
    assert(crate::certificate::der_host_name("localhost"@) =~= seq![
        0x82u8,
        9,
        0x6c,
        0x6f,
        0x63,
        0x61,
        0x6c,
        0x68,
        0x6f,
        0x73,
        0x74,
    ]);
}

/// The temporary certificate is valid for the host `localhost`, where the name stands in it as
/// such, and its key is the one that came with it.
pub proof fn the_temporary_certificate_is_for_localhost(
    made: Result<CertificateFiles, TquicError>,
)
    requires
        call_ensures(generate_temp_certificate, (), made),
        made is Ok,
    ensures
        made->Ok_0.certificate.path@ == "temp_cert.der"@,
        made->Ok_0.key.path@ == "temp_key.der"@,
        exists|names: Vec<String>, pair: DerPair|
            names@.len() == 1 && names@[0]@ == "localhost"@
                && #[trigger] crate::certificate::is_der_reply_for(names, Ok(pair))
                && made->Ok_0.certificate.contents@ == pair.certificate@
                && made->Ok_0.key.contents@ == pair.key@,
        exists|i: int|
            0 <= i <= made->Ok_0.certificate.contents@.len() - 11
                && #[trigger] made->Ok_0.certificate.contents@.subrange(i, i + 11) == seq![
                0x82u8,
                9,
                0x6c,
                0x6f,
                0x63,
                0x61,
                0x6c,
                0x68,
                0x6f,
                0x73,
                0x74,
            ],
{
    lemma_localhost_bytes();
    lemma_made_certificate(made);
    let contents = made->Ok_0.certificate.contents@;
    let part = crate::certificate::der_host_name("localhost"@);
    assert(crate::certificate::holds(contents, part));
    let i = choose|i: int|
        0 <= i <= contents.len() - part.len() && #[trigger] contents.subrange(i, i + part.len())
            == part;
    assert(contents.subrange(i, i + 11) == part);
}

/// The test certificate is kept in PEM, and the host `localhost` stands as such in the certificate
/// that it is the PEM form of.
pub proof fn the_test_certificate_is_for_localhost(made: Result<CertificateFiles, rcgen::Error>)
    requires
        call_ensures(generate_test_certificate, (), made),
        made is Ok,
    ensures
        made->Ok_0.certificate.path@ == "temp_cert.pem"@,
        made->Ok_0.key.path@ == "temp_key.pem"@,
        exists|der: Seq<u8>, carriage_returns: bool, i: int|
            made->Ok_0.certificate.contents@ == vstd::utf8::encode_utf8(
                #[trigger] crate::certificate::certificate_pem(der, carriage_returns),
            ) && 0 <= i <= der.len() - 11 && #[trigger] der.subrange(i, i + 11) == seq![
                0x82u8,
                9,
                0x6c,
                0x6f,
                0x63,
                0x61,
                0x6c,
                0x68,
                0x6f,
                0x73,
                0x74,
            ],
{
    lemma_localhost_bytes();
    crate::certificate::the_test_certificate_names_its_subject(made->Ok_0);
    let part = crate::certificate::der_host_name("localhost"@);
    let (der, carriage_returns) = choose|der: Seq<u8>, carriage_returns: bool|
        crate::certificate::holds(der, part) && crate::certificate::holds(
            der,
            crate::certificate::der_subject("localhost"@, "TQUIC Test"@),
        ) && made->Ok_0.certificate.contents@ == vstd::utf8::encode_utf8(
            #[trigger] crate::certificate::certificate_pem(der, carriage_returns),
        );
    let i = choose|i: int|
        0 <= i <= der.len() - part.len() && #[trigger] der.subrange(i, i + part.len()) == part;
    assert(der.subrange(i, i + 11) == part);
}

/// The test certificate is the one that `rcgen` was asked for, for the name `localhost`, with the
/// common name `localhost` and the organization `TQUIC Test`, and its key is the one that came
/// with it; where `rcgen` failed, the error is its own.
pub proof fn the_test_certificate_is_the_one_asked_for(
    made: Result<CertificateFiles, rcgen::Error>,
)
    requires
        call_ensures(generate_test_certificate, (), made),
    ensures
        exists|
            subject: crate::certificate::CertificateSubject,
            reply: Result<PemPair, rcgen::Error>,
        | #[trigger]
            crate::certificate::is_reply_for(subject, reply) && subject.names@.len() == 1
                && subject.names@[0]@ == "localhost"@ && subject.common_name@ == "localhost"@
                && subject.organization@ == "TQUIC Test"@ && (reply is Ok <==> made is Ok) && (
            reply is Ok ==> made->Ok_0.certificate.contents@ == vstd::utf8::encode_utf8(
                reply->Ok_0.certificate@,
            ) && made->Ok_0.key.contents@ == vstd::utf8::encode_utf8(reply->Ok_0.key@)) && (reply
                is Err ==> made->Err_0 == reply->Err_0),
{
}

} // verus!
