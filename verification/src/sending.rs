//! How a client sends a request.

use bytes::Bytes;
use vstd::prelude::*;

use crate::error::TquicError;
use crate::message::Http3Request;
use crate::text::join;
use crate::wire::{request_headers, Header};

verus! {

/// How far the sending of a request has come: what was asked of the driver last.
#[derive(Debug)]
pub enum SendState {
    /// An HTTP/3 configuration is made.
    Configuring(Http3Request),
    /// HTTP/3 is set up on the connection.
    Opening(Http3Request),
    /// A stream is opened.
    OpeningStream(Http3Request),
    /// The header fields are sent; the body waits.
    SendingHeaders {
        /// The stream.
        stream_id: u64,
        /// The body.
        body: Option<Bytes>,
    },
    /// The body is sent.
    SendingBody,
    /// All is done.
    Finished,
}

/// What the driver reports.
#[derive(Debug)]
pub enum SendEvent {
    /// What was tried succeeded, or failed as the text says.
    Tried(Result<(), String>),
    /// A stream was opened, or that failed as the text says.
    StreamOpened(Result<u64, String>),
}

/// What the driver is to do next.
#[derive(Debug)]
pub enum SendAction {
    /// Make an HTTP/3 configuration; report `Tried`.
    CreateConfig,
    /// Set up HTTP/3 on the connection; report `Tried`.
    CreateHttp3,
    /// Open a stream; report `StreamOpened`.
    OpenStream,
    /// Send header fields; report `Tried`.
    SendHeaders {
        /// The stream.
        stream_id: u64,
        /// The header fields.
        headers: Vec<Header>,
        /// Whether nothing follows on the stream.
        fin: bool,
    },
    /// Send a body; report `Tried`.
    SendBody {
        /// The stream.
        stream_id: u64,
        /// The body.
        body: Bytes,
        /// Whether nothing follows on the stream.
        fin: bool,
    },
    /// Return this result; there is nothing more to do.
    Finish(Result<(), TquicError>),
    /// The report was not one that was waited for: nothing has changed.
    Wait,
}

/// The action ends the sending with an HTTP/3 error of this text.
pub open spec fn fails_with(action: SendAction, text: Seq<char>) -> bool {
    action matches SendAction::Finish(Err(TquicError::Http3(s))) && s@ == text
}

/// The action is to send the header fields of the request on the stream. They end the stream
/// exactly where the request has no body.
pub open spec fn sends_request(action: SendAction, stream: u64, request: Http3Request) -> bool {
    action matches SendAction::SendHeaders { stream_id, headers, fin } && stream_id == stream
        && crate::wire::fields(headers@) == crate::wire::all_encoded(
        crate::wire::request_texts(request),
    ) && fin == (request.body is None)
}

/// A sending that stands at `state` goes on to `next` with `action` when `event` is reported.
pub open spec fn moves(
    state: SendState,
    event: SendEvent,
    next: SendState,
    action: SendAction,
) -> bool {
    match (state, event) {
        (SendState::Configuring(request), SendEvent::Tried(Ok(_))) => {
            next == SendState::Opening(request) && action == SendAction::CreateHttp3
        },
        (SendState::Configuring(_), SendEvent::Tried(Err(text))) => {
            next == SendState::Finished && fails_with(action, "创建HTTP/3配置失败: "@ + text@)
        },
        (SendState::Opening(request), SendEvent::Tried(Ok(_))) => {
            next == SendState::OpeningStream(request) && action == SendAction::OpenStream
        },
        (SendState::Opening(_), SendEvent::Tried(Err(text))) => {
            next == SendState::Finished && fails_with(action, "创建HTTP/3连接失败: "@ + text@)
        },
        (SendState::OpeningStream(request), SendEvent::StreamOpened(Ok(stream_id))) => {
            next == SendState::SendingHeaders { stream_id, body: request.body } && sends_request(
                action,
                stream_id,
                request,
            )
        },
        (SendState::OpeningStream(_), SendEvent::StreamOpened(Err(text))) => {
            next == SendState::Finished && fails_with(action, "创建流失败: "@ + text@)
        },
        (SendState::SendingHeaders { stream_id, body }, SendEvent::Tried(Ok(_))) => match body {
            Some(body) => next == SendState::SendingBody && action == SendAction::SendBody {
                stream_id,
                body,
                fin: true,
            },
            None => next == SendState::Finished && action == SendAction::Finish(Ok(())),
        },
        (SendState::SendingHeaders { .. }, SendEvent::Tried(Err(text))) => {
            next == SendState::Finished && fails_with(action, "发送头部失败: "@ + text@)
        },
        (SendState::SendingBody, SendEvent::Tried(Ok(_))) => {
            next == SendState::Finished && action == SendAction::Finish(Ok(()))
        },
        (SendState::SendingBody, SendEvent::Tried(Err(text))) => {
            next == SendState::Finished && fails_with(action, "发送请求体失败: "@ + text@)
        },
        _ => next == state && action == SendAction::Wait,
    }
}

/// Sending begins with the making of a configuration.
pub fn begin_sending(request: Http3Request) -> (first: (SendState, SendAction))
    ensures
        first.0 == SendState::Configuring(request),
        first.1 == SendAction::CreateConfig,
{
    (SendState::Configuring(request), SendAction::CreateConfig)
}

fn failure(what: &str, text: &String) -> (step: (SendState, SendAction))
    ensures
        step.0 == SendState::Finished,
        fails_with(step.1, what@ + text@),
{
    (
        SendState::Finished,
        SendAction::Finish(Err(TquicError::Http3(join(what, text.as_str())))),
    )
}

/// What a sending does next, given what was reported.
pub fn continue_sending(state: SendState, event: SendEvent) -> (step: (SendState, SendAction))
    ensures
        moves(state, event, step.0, step.1),
{
    match (state, event) {
        (SendState::Configuring(request), SendEvent::Tried(tried)) => match tried {
            Ok(_) => (SendState::Opening(request), SendAction::CreateHttp3),
            Err(text) => failure("创建HTTP/3配置失败: ", &text),
        },
        (SendState::Opening(request), SendEvent::Tried(tried)) => match tried {
            Ok(_) => (SendState::OpeningStream(request), SendAction::OpenStream),
            Err(text) => failure("创建HTTP/3连接失败: ", &text),
        },
        (SendState::OpeningStream(request), SendEvent::StreamOpened(opened)) => match opened {
            Ok(stream_id) => {
                let headers = request_headers(&request);
                let fin = request.body.is_none();
                (
                    SendState::SendingHeaders { stream_id, body: request.body },
                    SendAction::SendHeaders { stream_id, headers, fin },
                )
            },
            Err(text) => failure("创建流失败: ", &text),
        },
        (SendState::SendingHeaders { stream_id, body }, SendEvent::Tried(tried)) => match tried {
            Ok(_) => match body {
                Some(body) => (
                    SendState::SendingBody,
                    SendAction::SendBody { stream_id, body, fin: true },
                ),
                None => (SendState::Finished, SendAction::Finish(Ok(()))),
            },
            Err(text) => failure("发送头部失败: ", &text),
        },
        (SendState::SendingBody, SendEvent::Tried(tried)) => match tried {
            Ok(_) => (SendState::Finished, SendAction::Finish(Ok(()))),
            Err(text) => failure("发送请求体失败: ", &text),
        },
        (state, _) => (state, SendAction::Wait),
    }
}

/// The sending of a request so far: the states it was in, what was reported in each, and the
/// action that each state was entered with.
pub open spec fn is_sending(
    request: Http3Request,
    states: Seq<SendState>,
    events: Seq<SendEvent>,
    actions: Seq<SendAction>,
) -> bool {
    &&& states.len() == events.len() + 1
    &&& actions.len() == states.len()
    &&& states[0] == SendState::Configuring(request)
    &&& actions[0] == SendAction::CreateConfig
    &&& forall|i: int|
        #![trigger events[i]]
        0 <= i < events.len() ==> moves(states[i], events[i], states[i + 1], actions[i + 1])
}

/// Once the result is returned, nothing more is done, whatever is reported.
pub proof fn nothing_follows_the_end(
    request: Http3Request,
    states: Seq<SendState>,
    events: Seq<SendEvent>,
    actions: Seq<SendAction>,
    i: int,
    k: int,
)
    requires
        is_sending(request, states, events, actions),
        0 <= i < k < actions.len(),
        actions[i] is Finish,
    ensures
        actions[k] == SendAction::Wait,
        states[k] == SendState::Finished,
    decreases k - i,
{
    assert(moves(states[i - 1], events[i - 1], states[i], actions[i]));
    assert(moves(states[k - 1], events[k - 1], states[k], actions[k]));
    if i + 1 < k {
        nothing_follows_the_end(request, states, events, actions, i, k - 1);
    }
}

/// Nothing may follow the action on its stream.
pub open spec fn ends_stream(action: SendAction) -> bool {
    match action {
        SendAction::SendHeaders { fin, .. } => fin,
        SendAction::SendBody { fin, .. } => fin,
        _ => false,
    }
}

/// How many of the actions end a stream.
pub open spec fn stream_ends(actions: Seq<SendAction>) -> nat
    decreases actions.len(),
{
    if actions.len() == 0 {
        0
    } else {
        stream_ends(actions.drop_last()) + if ends_stream(actions.last()) {
            1nat
        } else {
            0nat
        }
    }
}

proof fn lemma_stream_ends_step(actions: Seq<SendAction>, k: int)
    requires
        0 <= k < actions.len(),
    ensures
        stream_ends(actions.take(k + 1)) == stream_ends(actions.take(k)) + if ends_stream(
            actions[k],
        ) {
            1nat
        } else {
            0nat
        },
{
    assert(actions.take(k + 1).drop_last() =~= actions.take(k));
    assert(actions.take(k + 1).last() == actions[k]);
}

/// How often the stream has been ended in each state that is not the last.
proof fn lemma_stream_ends_so_far(
    request: Http3Request,
    states: Seq<SendState>,
    events: Seq<SendEvent>,
    actions: Seq<SendAction>,
    k: int,
)
    requires
        is_sending(request, states, events, actions),
        0 <= k < actions.len(),
    ensures
        match states[k] {
            SendState::Configuring(r) | SendState::Opening(r) | SendState::OpeningStream(r) => {
                r == request && stream_ends(actions.take(k + 1)) == 0
            },
            SendState::SendingHeaders { body, .. } => body == request.body && stream_ends(
                actions.take(k + 1),
            ) == if request.body is None {
                1nat
            } else {
                0nat
            },
            SendState::SendingBody => request.body is Some && stream_ends(actions.take(k + 1)) == 1,
            SendState::Finished => stream_ends(actions.take(k + 1)) <= 1,
        },
    decreases k,
{
    lemma_stream_ends_step(actions, k);
    if k == 0 {
        assert(actions.take(0).len() == 0);
    } else {
        lemma_stream_ends_so_far(request, states, events, actions, k - 1);
        assert(moves(states[k - 1], events[k - 1], states[k], actions[k]));
    }
}

/// The stream is ended at most once, and a request that was sent without an error has ended its
/// stream.
pub proof fn a_request_ends_its_stream_once(
    request: Http3Request,
    states: Seq<SendState>,
    events: Seq<SendEvent>,
    actions: Seq<SendAction>,
    k: int,
)
    requires
        is_sending(request, states, events, actions),
        0 <= k < actions.len(),
    ensures
        stream_ends(actions.take(k + 1)) <= 1,
        actions[k] == SendAction::Finish(Ok(())) ==> stream_ends(actions.take(k + 1)) == 1,
{
    lemma_stream_ends_so_far(request, states, events, actions, k);
    if k > 0 {
        lemma_stream_ends_so_far(request, states, events, actions, k - 1);
        lemma_stream_ends_step(actions, k);
        assert(moves(states[k - 1], events[k - 1], states[k], actions[k]));
    }
}

/// A sending of which no step fails: a configuration is made, HTTP/3 is set up, a stream is
/// opened, the header fields are sent on it, and then the body, if there is one; the result is
/// that all went well. `states` are those that it goes through after the first.
pub proof fn a_sending_without_failure(
    request: Http3Request,
    stream_id: u64,
    states: Seq<SendState>,
    actions: Seq<SendAction>,
)
    requires
        states.len() == 5,
        actions.len() == 5,
        moves(SendState::Configuring(request), SendEvent::Tried(Ok(())), states[0], actions[0]),
        moves(states[0], SendEvent::Tried(Ok(())), states[1], actions[1]),
        moves(states[1], SendEvent::StreamOpened(Ok(stream_id)), states[2], actions[2]),
        moves(states[2], SendEvent::Tried(Ok(())), states[3], actions[3]),
        moves(states[3], SendEvent::Tried(Ok(())), states[4], actions[4]),
    ensures
        actions[0] == SendAction::CreateHttp3,
        actions[1] == SendAction::OpenStream,
        sends_request(actions[2], stream_id, request),
        match request.body {
            Some(body) => actions[3] == (SendAction::SendBody { stream_id, body, fin: true })
                && actions[4] == SendAction::Finish(Ok(())),
            None => actions[3] == SendAction::Finish(Ok(())),
        },
{
}

/// The event is one that the action asks to be reported.
pub open spec fn is_report_on(event: SendEvent, action: SendAction) -> bool {
    match action {
        SendAction::CreateConfig
        | SendAction::CreateHttp3
        | SendAction::SendHeaders { .. }
        | SendAction::SendBody { .. } => event is Tried,
        SendAction::OpenStream => event is StreamOpened,
        SendAction::Finish(_) | SendAction::Wait => false,
    }
}

/// The action is what a sending in this state waits for.
pub open spec fn is_pending(state: SendState, action: SendAction) -> bool {
    match state {
        SendState::Configuring(_) => action is CreateConfig,
        SendState::Opening(_) => action is CreateHttp3,
        SendState::OpeningStream(_) => action is OpenStream,
        SendState::SendingHeaders { .. } => action is SendHeaders,
        SendState::SendingBody => action is SendBody,
        SendState::Finished => action is Finish,
    }
}

/// A driver that reports what it was asked for is always told what to do next, and has the result
/// after five reports at most.
pub proof fn a_faithful_driver_is_soon_done(
    request: Http3Request,
    states: Seq<SendState>,
    events: Seq<SendEvent>,
    actions: Seq<SendAction>,
    k: int,
)
    requires
        is_sending(request, states, events, actions),
        forall|i: int|
            #![trigger events[i]]
            0 <= i < events.len() ==> is_report_on(events[i], actions[i]),
        0 <= k < actions.len(),
    ensures
        is_pending(states[k], actions[k]),
        actions[k] != SendAction::Wait,
        k <= 5,
        k == 5 ==> actions[k] is Finish,
{
    lemma_place_of_state(request, states, events, actions, k);
}

/// With a faithful driver each state but the last has its place.
proof fn lemma_place_of_state(
    request: Http3Request,
    states: Seq<SendState>,
    events: Seq<SendEvent>,
    actions: Seq<SendAction>,
    k: int,
)
    requires
        is_sending(request, states, events, actions),
        forall|i: int|
            #![trigger events[i]]
            0 <= i < events.len() ==> is_report_on(events[i], actions[i]),
        0 <= k < actions.len(),
    ensures
        is_pending(states[k], actions[k]),
        k <= 5,
        match states[k] {
            SendState::Configuring(_) => k == 0,
            SendState::Opening(_) => k == 1,
            SendState::OpeningStream(_) => k == 2,
            SendState::SendingHeaders { .. } => k == 3,
            SendState::SendingBody => k == 4,
            SendState::Finished => true,
        },
    decreases k,
{
    if k > 0 {
        lemma_place_of_state(request, states, events, actions, k - 1);
        assert(moves(states[k - 1], events[k - 1], states[k], actions[k]));
        assert(is_report_on(events[k - 1], actions[k - 1]));
    }
}

/// The handler of a server is handed the request that a client sends: where the header fields
/// that a sending puts on a stream come in on a connection, the handler gets that request. Only a
/// header field with the name of one of the four pseudo header fields would not come out as it
/// went in.
pub proof fn the_handler_gets_what_a_client_sends(
    request: Http3Request,
    sent_on: u64,
    sending: SendAction,
    received_on: u64,
    headers: Vec<Header>,
    next: crate::connection::ConnectionState,
    handed: crate::connection::ConnectionAction,
)
    requires
        sends_request(sending, sent_on, request),
        crate::wire::fields(headers@) == crate::wire::fields(sending->SendHeaders_headers@),
        forall|name: Seq<char>| #[trigger]
            request.headers@.contains_key(name) ==> !crate::wire::is_pseudo_text(name),
        crate::connection::moves(
            crate::connection::ConnectionState::Polling,
            crate::connection::ConnectionEvent::Polled(
                crate::connection::PollOutcome::Headers { stream_id: received_on, headers },
            ),
            next,
            handed,
        ),
    ensures
        handed matches crate::connection::ConnectionAction::HandleRequest(received)
            && received.method@ == request.method@ && received.scheme@ == request.scheme@
            && received.authority@ == request.authority@ && received.path@ == request.path@
            && received.headers@ == request.headers@,
{
    crate::connection::the_handler_gets_the_request_sent(
        request,
        received_on,
        headers,
        next,
        handed,
    );
}

} // verus!
