//! Promises on what a server does with a connection, and on what its handler hears.

use vstd::prelude::*;

use crate::accepting::{
    begin_accepting, continue_accepting, worker_notices, AcceptAction, AcceptEvent, AcceptState,
};
use crate::connection::{
    answer_request, begin_connection, handle_connection, ConnectionAction, ConnectionEvent,
    ConnectionState, PollOutcome,
};
use crate::error::TquicError;
use crate::handler::{tell, Http3EventHandler, Notice};
use crate::headers::HeaderMap;
use crate::message::{Http3Request, Http3Response};
use crate::text::decimal_text;
use crate::wire::Header;

verus! {

/// A step of a connection or of the accepting of connections: where it leads and what is to be
/// done.
pub type Step = (ConnectionState, ConnectionAction);

/// The handler that is told of an event is told of that event.
pub proof fn a_handler_is_told_what_happened<H: Http3EventHandler + ?Sized>(
    handler: &H,
    error: String,
)
    requires
        call_ensures(tell::<H>, (handler, Notice::Established), ()),
        call_ensures(tell::<H>, (handler, Notice::Closed), ()),
        call_ensures(tell::<H>, (handler, Notice::Error(error)), ()),
    ensures
        call_ensures(H::on_connection_established, (handler,), ()),
        call_ensures(H::on_connection_closed, (handler,), ()),
        call_ensures(H::on_error, (handler, error), ()),
{
}

/// A connection is made known to the handler, then configured, then set up, and then served.
pub proof fn a_connection_is_set_up_in_order(
    begun: Step,
    greeted: Step,
    configured: Step,
    opened: Step,
)
    requires
        call_ensures(begin_connection, (), begun),
        call_ensures(handle_connection, (begun.0, ConnectionEvent::Done), greeted),
        call_ensures(handle_connection, (greeted.0, ConnectionEvent::Tried(Ok(()))), configured),
        call_ensures(handle_connection, (configured.0, ConnectionEvent::Tried(Ok(()))), opened),
    ensures
        begun.1 == ConnectionAction::Notify(Notice::Established),
        greeted.1 == ConnectionAction::CreateConfig,
        configured.1 == ConnectionAction::CreateHttp3,
        opened.1 == ConnectionAction::CheckClosed,
        opened.0 == ConnectionState::Checking,
{
}

/// A connection that cannot be configured, or cannot be set up, is over, with an HTTP/3 error that
/// says which of the two failed, and then what the driver said of it.
pub proof fn a_failed_set_up_says_what_failed(
    text: String,
    unconfigured: Step,
    unopened: Step,
)
    requires
        call_ensures(
            handle_connection,
            (ConnectionState::Configuring, ConnectionEvent::Tried(Err(text))),
            unconfigured,
        ),
        call_ensures(
            handle_connection,
            (ConnectionState::Opening, ConnectionEvent::Tried(Err(text))),
            unopened,
        ),
    ensures
        unconfigured.0 == ConnectionState::Finished && unopened.0 == ConnectionState::Finished,
        unconfigured.1 matches ConnectionAction::Finish(Err(TquicError::Http3(said))) && said@
            == "创建HTTP/3配置失败: "@ + text@,
        unopened.1 matches ConnectionAction::Finish(Err(TquicError::Http3(said))) && said@
            == "创建HTTP/3连接失败: "@ + text@,
{
}

/// A connection that is closed is closed to the handler too and is then over; one that is open is
/// asked for its next event.
pub proof fn a_connection_is_served_until_it_is_closed(closed: Step, open: Step, over: Step)
    requires
        call_ensures(
            handle_connection,
            (ConnectionState::Checking, ConnectionEvent::Closed(true)),
            closed,
        ),
        call_ensures(
            handle_connection,
            (ConnectionState::Checking, ConnectionEvent::Closed(false)),
            open,
        ),
        call_ensures(handle_connection, (closed.0, ConnectionEvent::Done), over),
    ensures
        closed.1 == ConnectionAction::Notify(Notice::Closed),
        over.1 == ConnectionAction::Finish(Ok(())),
        over.0 == ConnectionState::Finished,
        open == (ConnectionState::Polling, ConnectionAction::Poll),
{
}

/// Where there is no event, one millisecond passes, and the connection is served on; where there
/// is an event that is not a request, it is served on at once.
pub proof fn what_is_no_request_is_passed_over(idle: Step, rested: Step, other: Step)
    requires
        call_ensures(
            handle_connection,
            (ConnectionState::Polling, ConnectionEvent::Polled(PollOutcome::Idle)),
            idle,
        ),
        call_ensures(handle_connection, (idle.0, ConnectionEvent::Done), rested),
        call_ensures(
            handle_connection,
            (ConnectionState::Polling, ConnectionEvent::Polled(PollOutcome::Other)),
            other,
        ),
    ensures
        idle.1 == ConnectionAction::Sleep(1),
        rested == (ConnectionState::Checking, ConnectionAction::CheckClosed),
        other == (ConnectionState::Checking, ConnectionAction::CheckClosed),
{
}

/// Where fetching an event fails, the handler hears of it, with what the driver said, and then
/// that the connection is gone, and the connection is over.
pub proof fn a_failed_fetch_is_reported_and_ends_the_connection(
    text: String,
    failed: Step,
    closed: Step,
    over: Step,
)
    requires
        call_ensures(
            handle_connection,
            (ConnectionState::Polling, ConnectionEvent::Polled(PollOutcome::Failed(text))),
            failed,
        ),
        call_ensures(handle_connection, (failed.0, ConnectionEvent::Done), closed),
        call_ensures(handle_connection, (closed.0, ConnectionEvent::Done), over),
    ensures
        failed.1 matches ConnectionAction::Notify(Notice::Error(said)) && said@
            == "HTTP/3事件处理错误: "@ + text@,
        closed.1 == ConnectionAction::Notify(Notice::Closed),
        over == (ConnectionState::Finished, ConnectionAction::Finish(Ok(()))),
{
}

/// A request that comes in on a stream is handed to the handler, to be answered on that stream.
/// Each of its four parts is the text of the last field that has its name, wherever this stands.
pub proof fn the_handler_is_handed_each_part(
    stream_id: u64,
    headers: Vec<Header>,
    handed: Step,
    i: int,
)
    requires
        call_ensures(
            handle_connection,
            (
                ConnectionState::Polling,
                ConnectionEvent::Polled(PollOutcome::Headers { stream_id, headers }),
            ),
            handed,
        ),
        0 <= i < headers@.len(),
        forall|j: int|
            i < j < headers@.len() ==> (#[trigger] headers@[j]).name@ != headers@[i].name@,
    ensures
        handed.0 == (ConnectionState::Handling { stream_id }),
        handed.1 is HandleRequest,
        handed.1->HandleRequest_0.body is None,
        crate::clock::is_time_read(handed.1->HandleRequest_0.timestamp),
        headers@[i].name@ == vstd::utf8::encode_utf8(":method"@) ==>
            handed.1->HandleRequest_0.method@ == if vstd::utf8::valid_utf8(headers@[i].value@) {
            vstd::utf8::decode_utf8(headers@[i].value@)
        } else {
            crate::wire::lossy_text(headers@[i].value@)
        },
        headers@[i].name@ == vstd::utf8::encode_utf8(":scheme"@) ==>
            handed.1->HandleRequest_0.scheme@ == if vstd::utf8::valid_utf8(headers@[i].value@) {
            vstd::utf8::decode_utf8(headers@[i].value@)
        } else {
            crate::wire::lossy_text(headers@[i].value@)
        },
        headers@[i].name@ == vstd::utf8::encode_utf8(":authority"@) ==>
            handed.1->HandleRequest_0.authority@ == if vstd::utf8::valid_utf8(
            headers@[i].value@,
        ) {
            vstd::utf8::decode_utf8(headers@[i].value@)
        } else {
            crate::wire::lossy_text(headers@[i].value@)
        },
        headers@[i].name@ == vstd::utf8::encode_utf8(":path"@) ==>
            handed.1->HandleRequest_0.path@ == if vstd::utf8::valid_utf8(headers@[i].value@) {
            vstd::utf8::decode_utf8(headers@[i].value@)
        } else {
            crate::wire::lossy_text(headers@[i].value@)
        },
{
    crate::promises::messages::lemma_described_part(headers@, handed.1->HandleRequest_0, i);
}

/// What no field names, the handler is handed empty.
pub proof fn the_handler_is_handed_nothing_for_a_missing_part(
    stream_id: u64,
    headers: Vec<Header>,
    handed: Step,
    name: Seq<char>,
)
    requires
        call_ensures(
            handle_connection,
            (
                ConnectionState::Polling,
                ConnectionEvent::Polled(PollOutcome::Headers { stream_id, headers }),
            ),
            handed,
        ),
        forall|j: int|
            0 <= j < headers@.len() ==> (#[trigger] headers@[j]).name@ != vstd::utf8::encode_utf8(
                name,
            ),
    ensures
        handed.0 == (ConnectionState::Handling { stream_id }),
        handed.1 is HandleRequest,
        name == ":method"@ ==> handed.1->HandleRequest_0.method@.len() == 0,
        name == ":scheme"@ ==> handed.1->HandleRequest_0.scheme@.len() == 0,
        name == ":authority"@ ==> handed.1->HandleRequest_0.authority@.len() == 0,
        name == ":path"@ ==> handed.1->HandleRequest_0.path@.len() == 0,
{
    crate::promises::messages::lemma_described_absence(
        headers@,
        handed.1->HandleRequest_0,
        name,
    );
}

/// A field that is not one of the four parts can be read under its name in the request that the
/// handler is handed: the last one of that name.
pub proof fn the_handler_is_handed_each_field(
    stream_id: u64,
    headers: Vec<Header>,
    handed: Step,
    i: int,
    asked: &str,
    got: Option<&String>,
)
    requires
        call_ensures(
            handle_connection,
            (
                ConnectionState::Polling,
                ConnectionEvent::Polled(PollOutcome::Headers { stream_id, headers }),
            ),
            handed,
        ),
        call_ensures(HeaderMap::get, (&handed.1->HandleRequest_0.headers, asked), got),
        0 <= i < headers@.len(),
        headers@[i].name@ != vstd::utf8::encode_utf8(":method"@),
        headers@[i].name@ != vstd::utf8::encode_utf8(":scheme"@),
        headers@[i].name@ != vstd::utf8::encode_utf8(":authority"@),
        headers@[i].name@ != vstd::utf8::encode_utf8(":path"@),
        asked@ == if vstd::utf8::valid_utf8(headers@[i].name@) {
            vstd::utf8::decode_utf8(headers@[i].name@)
        } else {
            crate::wire::lossy_text(headers@[i].name@)
        },
        forall|j: int|
            i < j < headers@.len() ==> asked@ != if vstd::utf8::valid_utf8(
                (#[trigger] headers@[j]).name@,
            ) {
                vstd::utf8::decode_utf8(headers@[j].name@)
            } else {
                crate::wire::lossy_text(headers@[j].name@)
            },
    ensures
        got is Some,
        vstd::utf8::valid_utf8(headers@[i].value@) ==> got->0@ == vstd::utf8::decode_utf8(
            headers@[i].value@,
        ),
        !vstd::utf8::valid_utf8(headers@[i].value@) ==> got->0@ == crate::wire::lossy_text(
            headers@[i].value@,
        ),
{
    crate::promises::messages::lemma_described_field(
        headers@,
        handed.1->HandleRequest_0,
        i,
        asked@,
    );
}

/// An answer goes out on the stream of its request: its status, in decimal digits, and the type of
/// its body, on a stream that stays open; then its body, if there is one, with which the stream
/// ends; and then the connection is served on. Whether sending succeeds makes no difference.
pub proof fn an_answer_goes_out_whole(
    stream_id: u64,
    response: Http3Response,
    status_text: String,
    answered: Step,
    headers_sent: Result<(), String>,
    followed: Step,
    body_sent: Result<(), String>,
    ended: Step,
)
    requires
        call_ensures(
            handle_connection,
            (ConnectionState::Handling { stream_id }, ConnectionEvent::Answered(response)),
            answered,
        ),
        call_ensures(decimal_text, (response.status,), status_text),
        call_ensures(
            handle_connection,
            (answered.0, ConnectionEvent::Tried(headers_sent)),
            followed,
        ),
        call_ensures(handle_connection, (followed.0, ConnectionEvent::Tried(body_sent)), ended),
    ensures
        answered.1 is SendHeaders,
        answered.1->SendHeaders_stream_id == stream_id,
        answered.1->SendHeaders_fin == false,
        answered.1->SendHeaders_headers@.len() == 2,
        answered.1->SendHeaders_headers@[0].name@ == vstd::utf8::encode_utf8(":status"@),
        answered.1->SendHeaders_headers@[0].value@ == vstd::utf8::encode_utf8(status_text@),
        answered.1->SendHeaders_headers@[1].name@ == vstd::utf8::encode_utf8("content-type"@),
        answered.1->SendHeaders_headers@[1].value@ == vstd::utf8::encode_utf8(
            "application/json"@,
        ),
        response.body is Some ==> followed.1 is SendBody && followed.1->SendBody_stream_id
            == stream_id && followed.1->SendBody_body == response.body->0
            && followed.1->SendBody_fin == true && ended == (
            ConnectionState::Checking,
            ConnectionAction::CheckClosed,
        ),
        response.body is None ==> followed == (
            ConnectionState::Checking,
            ConnectionAction::CheckClosed,
        ),
{
    crate::promises::messages::lemma_response_fields(
        response.status,
        answered.1->SendHeaders_headers,
    );
}

/// No header field is handed to the handler that did not come in, and none under the name of one
/// of the four parts.
pub proof fn the_handler_is_handed_no_field_from_nowhere(
    stream_id: u64,
    headers: Vec<Header>,
    handed: Step,
    asked: &str,
    got: Option<&String>,
)
    requires
        call_ensures(
            handle_connection,
            (
                ConnectionState::Polling,
                ConnectionEvent::Polled(PollOutcome::Headers { stream_id, headers }),
            ),
            handed,
        ),
        call_ensures(HeaderMap::get, (&handed.1->HandleRequest_0.headers, asked), got),
        asked@ == ":method"@ || asked@ == ":scheme"@ || asked@ == ":authority"@ || asked@
            == ":path"@ || forall|j: int|
            0 <= j < headers@.len() ==> asked@ != if vstd::utf8::valid_utf8(
                (#[trigger] headers@[j]).name@,
            ) {
                vstd::utf8::decode_utf8(headers@[j].name@)
            } else {
                crate::wire::lossy_text(headers@[j].name@)
            },
    ensures
        got is None,
{
    if asked@ == ":method"@ || asked@ == ":scheme"@ || asked@ == ":authority"@ || asked@
        == ":path"@ {
        assert(crate::wire::is_pseudo_text(asked@));
    } else {
        crate::promises::messages::lemma_described_no_field(
            headers@,
            handed.1->HandleRequest_0,
            asked@,
        );
    }
}

/// A request is answered by the handler: the connection goes on as it does with a response that
/// the handler gives to that request. On the stream that waits for it goes the status of this
/// response, and its body waits.
pub proof fn the_handler_answers<H: Http3EventHandler + ?Sized>(
    handler: &H,
    state: ConnectionState,
    request: Http3Request,
    answered: Step,
)
    requires
        call_ensures(answer_request::<H>, (handler, state, request), answered),
    ensures
        exists|response: Http3Response| #[trigger]
            call_ensures(H::on_request, (handler, request), response) && call_ensures(
                handle_connection,
                (state, ConnectionEvent::Answered(response)),
                answered,
            ) && (state matches ConnectionState::Handling { stream_id } ==> answered.0 == (
            ConnectionState::Answering { stream_id, body: response.body })),
{
}

/// A report that is not waited for changes nothing.
pub proof fn an_unasked_report_changes_nothing(
    state: ConnectionState,
    event: ConnectionEvent,
    step: Step,
)
    requires
        call_ensures(handle_connection, (state, event), step),
        match state {
            ConnectionState::Greeting
            | ConnectionState::Pausing
            | ConnectionState::Reporting
            | ConnectionState::Closing => !(event is Done),
            ConnectionState::Configuring
            | ConnectionState::Opening
            | ConnectionState::Answering { .. }
            | ConnectionState::SendingBody => !(event is Tried),
            ConnectionState::Checking => !(event is Closed),
            ConnectionState::Polling => !(event is Polled),
            ConnectionState::Handling { .. } => !(event is Answered),
            ConnectionState::Finished => true,
        },
    ensures
        step == (state, ConnectionAction::Wait),
{
}

/// Something is sent on a stream by the action.
pub open spec fn sends_on(action: ConnectionAction, stream: u64) -> bool {
    match action {
        ConnectionAction::SendHeaders { stream_id, .. } => stream_id == stream,
        ConnectionAction::SendBody { stream_id, .. } => stream_id == stream,
        _ => false,
    }
}

/// Something is sent by the action with which its stream ends.
pub open spec fn ends_stream(action: ConnectionAction) -> bool {
    match action {
        ConnectionAction::SendHeaders { fin, .. } => fin,
        ConnectionAction::SendBody { fin, .. } => fin,
        _ => false,
    }
}

/// Once a stream has ended, nothing is sent on it any more until a new request comes in.
/// `states`, `events` and `actions` are those of a connection, from any point on.
pub proof fn nothing_is_sent_on_an_ended_stream(
    states: Seq<ConnectionState>,
    events: Seq<ConnectionEvent>,
    actions: Seq<ConnectionAction>,
    i: int,
    k: int,
    stream: u64,
)
    requires
        states.len() == events.len() + 1,
        actions.len() == states.len(),
        forall|n: int|
            #![trigger events[n]]
            0 <= n < events.len() ==> call_ensures(
                handle_connection,
                (states[n], events[n]),
                (states[n + 1], actions[n + 1]),
            ),
        0 < i < k < actions.len(),
        ends_stream(actions[i]),
        sends_on(actions[i], stream),
        sends_on(actions[k], stream),
    ensures
        exists|j: int| i < j < k && (#[trigger] actions[j]) is HandleRequest,
{
    let e = events[i - 1];
    assert(call_ensures(handle_connection, (states[i - 1], e), (states[i], actions[i])));
    if forall|j: int| i < j < k ==> !((#[trigger] actions[j]) is HandleRequest) {
        lemma_no_answer_without_request(states, events, actions, i, k - 1);
        let f = events[k - 1];
        assert(call_ensures(handle_connection, (states[k - 1], f), (states[k], actions[k])));
        assert(false);
    }
}

proof fn lemma_no_answer_without_request(
    states: Seq<ConnectionState>,
    events: Seq<ConnectionEvent>,
    actions: Seq<ConnectionAction>,
    i: int,
    k: int,
)
    requires
        states.len() == events.len() + 1,
        actions.len() == states.len(),
        forall|n: int|
            #![trigger events[n]]
            0 <= n < events.len() ==> call_ensures(
                handle_connection,
                (states[n], events[n]),
                (states[n + 1], actions[n + 1]),
            ),
        0 < i <= k < actions.len(),
        states[i] is SendingBody,
        forall|j: int| i < j <= k ==> !((#[trigger] actions[j]) is HandleRequest),
    ensures
        !(states[k] is Handling) && !(states[k] is Answering),
    decreases k - i,
{
    if i < k {
        lemma_no_answer_without_request(states, events, actions, i, k - 1);
        let e = events[k - 1];
        assert(call_ensures(handle_connection, (states[k - 1], e), (states[k], actions[k])));
        assert(!(actions[k] is HandleRequest));
    }
}

/// While the server runs, connections are looked for. One that is found is made known to the
/// handler and gets a worker, and then the next is looked for.
pub proof fn a_running_server_accepts_connections(
    begun: (AcceptState, AcceptAction),
    running: (AcceptState, AcceptAction),
    found: (AcceptState, AcceptAction),
    known: (AcceptState, AcceptAction),
    told: (AcceptState, AcceptAction),
    spawned: (AcceptState, AcceptAction),
)
    requires
        call_ensures(begin_accepting, (), begun),
        call_ensures(continue_accepting, (begun.0, AcceptEvent::Running(true)), running),
        call_ensures(continue_accepting, (running.0, AcceptEvent::Accepted(true)), found),
        call_ensures(continue_accepting, (found.0, AcceptEvent::PeerKnown(true)), known),
        call_ensures(continue_accepting, (known.0, AcceptEvent::Done), told),
        call_ensures(continue_accepting, (told.0, AcceptEvent::Done), spawned),
    ensures
        begun.1 == AcceptAction::TestRunning,
        running.1 == AcceptAction::Accept,
        found.1 == AcceptAction::AskPeerAddress,
        known.1 == AcceptAction::Notify(Notice::Established),
        told.1 == AcceptAction::SpawnWorker,
        spawned == begun,
{
}

/// Where there is no connection, or none that comes from anywhere, the next is looked for and
/// nobody hears of it; where the server does not run any more, nothing is done any more, whatever
/// is reported.
pub proof fn nothing_is_accepted_from_nowhere_or_after_the_end(
    begun: (AcceptState, AcceptAction),
    running: (AcceptState, AcceptAction),
    found: (AcceptState, AcceptAction),
    none: (AcceptState, AcceptAction),
    unknown: (AcceptState, AcceptAction),
    stopped: (AcceptState, AcceptAction),
    event: AcceptEvent,
    after: (AcceptState, AcceptAction),
)
    requires
        call_ensures(begin_accepting, (), begun),
        call_ensures(continue_accepting, (begun.0, AcceptEvent::Running(true)), running),
        call_ensures(continue_accepting, (running.0, AcceptEvent::Accepted(true)), found),
        call_ensures(continue_accepting, (running.0, AcceptEvent::Accepted(false)), none),
        call_ensures(continue_accepting, (found.0, AcceptEvent::PeerKnown(false)), unknown),
        call_ensures(continue_accepting, (begun.0, AcceptEvent::Running(false)), stopped),
        call_ensures(continue_accepting, (stopped.0, event), after),
    ensures
        none == begun,
        unknown == begun,
        stopped.1 == AcceptAction::Finish,
        after == (stopped.0, AcceptAction::Wait),
{
}

/// A report that the accepting of connections does not wait for changes nothing.
pub proof fn an_unasked_report_on_accepting_changes_nothing(
    state: AcceptState,
    event: AcceptEvent,
    step: (AcceptState, AcceptAction),
)
    requires
        call_ensures(continue_accepting, (state, event), step),
        match state {
            AcceptState::Testing => !(event is Running),
            AcceptState::Accepting => !(event is Accepted),
            AcceptState::Asking => !(event is PeerKnown),
            AcceptState::Greeting | AcceptState::Spawning => !(event is Done),
            AcceptState::Stopped => true,
        },
    ensures
        step == (state, AcceptAction::Wait),
{
}

/// A worker that ends well tells the handler that the connection is gone, and nothing else.
pub proof fn a_worker_that_ends_well_says_so(notices: Vec<Notice>)
    requires
        call_ensures(worker_notices, (Ok(()),), notices),
    ensures
        notices@.len() == 1 && notices@[0] == Notice::Closed,
{
}

/// Whatever error a worker ends with, the handler hears its text, and then that the connection is
/// gone.
pub proof fn a_worker_reports_every_error(error: TquicError, notices: Vec<Notice>)
    requires
        call_ensures(worker_notices, (Err(error),), notices),
    ensures
        notices@.len() == 2 && notices@[1] == Notice::Closed,
        notices@[0] is Error,
        match error {
            TquicError::Tquic(s) => notices@[0]->Error_0@ == "TQUIC错误: "@ + s@,
            TquicError::Config(s) => notices@[0]->Error_0@ == "配置错误: "@ + s@,
            TquicError::Certificate(s) => notices@[0]->Error_0@ == "证书错误: "@ + s@,
            TquicError::Connection(s) => notices@[0]->Error_0@ == "连接错误: "@ + s@,
            TquicError::Http3(s) => notices@[0]->Error_0@ == "HTTP/3错误: "@ + s@,
            TquicError::Io(e) => exists|s: String| #[trigger]
                vstd::string::to_string_from_display_ensures::<std::io::Error>(&e, s)
                    && notices@[0]->Error_0@ == "IO错误: "@ + s@,
        },
{
}

} // verus!
