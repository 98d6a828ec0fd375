//! The course of one connection on the server's side.
//!
//! Whoever drives a connection carries out one action after the other and reports the outcome of
//! each; what to do next is decided here.

use bytes::Bytes;
use vstd::prelude::*;

use crate::error::TquicError;
use crate::handler::{Http3EventHandler, Notice};
use crate::message::{Http3Request, Http3Response};
use crate::text::join;
use crate::wire::{parse_request_headers, response_headers, Header};

verus! {

/// Where a connection stands: what was asked of the driver last.
#[derive(Debug)]
pub enum ConnectionState {
    /// The handler is told that the connection is there.
    Greeting,
    /// An HTTP/3 configuration is made.
    Configuring,
    /// HTTP/3 is set up on the connection.
    Opening,
    /// It is looked up whether the connection is closed.
    Checking,
    /// The next event is fetched.
    Polling,
    /// The handler answers a request on a stream.
    Handling {
        /// The stream.
        stream_id: u64,
    },
    /// The header fields of an answer are sent; its body waits.
    Answering {
        /// The stream.
        stream_id: u64,
        /// The body.
        body: Option<Bytes>,
    },
    /// The body of an answer is sent.
    SendingBody,
    /// There was no event, and a moment passes.
    Pausing,
    /// The handler is told of an error.
    Reporting,
    /// The handler is told that the connection is gone.
    Closing,
    /// All is done.
    Finished,
}

/// What fetching the next event gave.
#[derive(Debug)]
pub enum PollOutcome {
    /// The header fields of a request came in on a stream.
    Headers {
        /// The stream.
        stream_id: u64,
        /// The header fields.
        headers: Vec<Header>,
    },
    /// Another event came in: data, the end of a stream, or a control event.
    Other,
    /// There is no event.
    Idle,
    /// Fetching failed; the text says how.
    Failed(String),
}

/// What the driver reports.
#[derive(Debug)]
pub enum ConnectionEvent {
    /// The handler was told, or the moment has passed.
    Done,
    /// What was tried succeeded, or failed as the text says.
    Tried(Result<(), String>),
    /// Whether the connection is closed.
    Closed(bool),
    /// What fetching the next event gave.
    Polled(PollOutcome),
    /// The answer of the handler.
    Answered(Http3Response),
}

/// What the driver is to do next.
#[derive(Debug)]
pub enum ConnectionAction {
    /// Tell the handler; report `Done`.
    Notify(Notice),
    /// Make an HTTP/3 configuration; report `Tried`.
    CreateConfig,
    /// Set up HTTP/3 on the connection; report `Tried`.
    CreateHttp3,
    /// Look up whether the connection is closed; report `Closed`.
    CheckClosed,
    /// Fetch the next event; report `Polled`.
    Poll,
    /// Have the handler answer a request; report `Answered`.
    HandleRequest(Http3Request),
    /// Send header fields; report `Tried`.
    SendHeaders {
        /// The stream.
        stream_id: u64,
        /// The header fields.
        headers: Vec<Header>,
        /// Whether nothing follows on the stream.
        fin: bool,
    },
    /// Send a body; report `Tried`.
    SendBody {
        /// The stream.
        stream_id: u64,
        /// The body.
        body: Bytes,
        /// Whether nothing follows on the stream.
        fin: bool,
    },
    /// Let some milliseconds pass; report `Done`.
    Sleep(u64),
    /// Return this result; there is nothing more to do.
    Finish(Result<(), TquicError>),
    /// The report was not one that was waited for: nothing has changed.
    Wait,
}

/// The action ends the connection with an HTTP/3 error of this text.
pub open spec fn fails_with(action: ConnectionAction, text: Seq<char>) -> bool {
    action matches ConnectionAction::Finish(Err(TquicError::Http3(s))) && s@ == text
}

/// The action is to tell the handler of an error with this text.
pub open spec fn reports(action: ConnectionAction, text: Seq<char>) -> bool {
    action matches ConnectionAction::Notify(Notice::Error(s)) && s@ == text
}

/// The action is to have the handler answer the request that the header fields describe, which
/// bears the time at which it was received.
pub open spec fn hands_over(action: ConnectionAction, headers: Seq<Header>) -> bool {
    action matches ConnectionAction::HandleRequest(request) && crate::wire::describes(
        crate::wire::fields(headers),
        request,
    ) && crate::wire::has_no_pseudo_field(request) && crate::clock::is_time_read(request.timestamp)
}

/// The action is to send the header fields of a response with this status. More may follow on
/// the stream.
pub open spec fn sends_status(action: ConnectionAction, stream: u64, status: u64) -> bool {
    action matches ConnectionAction::SendHeaders { stream_id, headers, fin } && stream_id == stream
        && crate::wire::fields(headers@) == crate::wire::all_encoded(
        crate::wire::response_texts(status),
    ) && !fin
}

/// A connection that stands at `state` goes on to `next` with `action` when `event` is reported.
pub open spec fn moves(
    state: ConnectionState,
    event: ConnectionEvent,
    next: ConnectionState,
    action: ConnectionAction,
) -> bool {
    match (state, event) {
        (ConnectionState::Greeting, ConnectionEvent::Done) => {
            next == ConnectionState::Configuring && action == ConnectionAction::CreateConfig
        },
        (ConnectionState::Configuring, ConnectionEvent::Tried(Ok(_))) => {
            next == ConnectionState::Opening && action == ConnectionAction::CreateHttp3
        },
        (ConnectionState::Configuring, ConnectionEvent::Tried(Err(text))) => {
            next == ConnectionState::Finished && fails_with(
                action,
                "创建HTTP/3配置失败: "@ + text@,
            )
        },
        (ConnectionState::Opening, ConnectionEvent::Tried(Ok(_))) => {
            next == ConnectionState::Checking && action == ConnectionAction::CheckClosed
        },
        (ConnectionState::Opening, ConnectionEvent::Tried(Err(text))) => {
            next == ConnectionState::Finished && fails_with(
                action,
                "创建HTTP/3连接失败: "@ + text@,
            )
        },
        (ConnectionState::Checking, ConnectionEvent::Closed(closed)) => if closed {
            next == ConnectionState::Closing && action == ConnectionAction::Notify(Notice::Closed)
        } else {
            next == ConnectionState::Polling && action == ConnectionAction::Poll
        },
        (ConnectionState::Polling, ConnectionEvent::Polled(outcome)) => match outcome {
            PollOutcome::Headers { stream_id, headers } => next == ConnectionState::Handling {
                stream_id,
            } && hands_over(action, headers@),
            PollOutcome::Other => next == ConnectionState::Checking && action
                == ConnectionAction::CheckClosed,
            PollOutcome::Idle => next == ConnectionState::Pausing && action
                == ConnectionAction::Sleep(1),
            PollOutcome::Failed(text) => next == ConnectionState::Reporting && reports(
                action,
                "HTTP/3事件处理错误: "@ + text@,
            ),
        },
        (ConnectionState::Handling { stream_id }, ConnectionEvent::Answered(response)) => {
            next == ConnectionState::Answering { stream_id, body: response.body } && sends_status(
                action,
                stream_id,
                response.status,
            )
        },
        (ConnectionState::Answering { stream_id, body }, ConnectionEvent::Tried(_)) => match body {
            Some(body) => next == ConnectionState::SendingBody && action
                == ConnectionAction::SendBody { stream_id, body, fin: true },
            None => next == ConnectionState::Checking && action == ConnectionAction::CheckClosed,
        },
        (ConnectionState::SendingBody, ConnectionEvent::Tried(_)) => {
            next == ConnectionState::Checking && action == ConnectionAction::CheckClosed
        },
        (ConnectionState::Pausing, ConnectionEvent::Done) => {
            next == ConnectionState::Checking && action == ConnectionAction::CheckClosed
        },
        (ConnectionState::Reporting, ConnectionEvent::Done) => {
            next == ConnectionState::Closing && action == ConnectionAction::Notify(Notice::Closed)
        },
        (ConnectionState::Closing, ConnectionEvent::Done) => {
            next == ConnectionState::Finished && action == ConnectionAction::Finish(Ok(()))
        },
        _ => next == state && action == ConnectionAction::Wait,
    }
}

/// A connection begins with the handler being told of it.
pub fn begin_connection() -> (first: (ConnectionState, ConnectionAction))
    ensures
        first.0 == ConnectionState::Greeting,
        first.1 == ConnectionAction::Notify(Notice::Established),
{
    (ConnectionState::Greeting, ConnectionAction::Notify(Notice::Established))
}

fn http3_failure(what: &str, text: &String) -> (action: ConnectionAction)
    ensures
        fails_with(action, what@ + text@),
{
    ConnectionAction::Finish(Err(TquicError::Http3(join(what, text.as_str()))))
}

/// The end of the connection: the handler is told that it is gone.
fn closing() -> (step: (ConnectionState, ConnectionAction))
    ensures
        step.0 == ConnectionState::Closing,
        step.1 == ConnectionAction::Notify(Notice::Closed),
{
    (ConnectionState::Closing, ConnectionAction::Notify(Notice::Closed))
}

/// The next round: it is looked up whether the connection is closed.
fn next_round() -> (step: (ConnectionState, ConnectionAction))
    ensures
        step.0 == ConnectionState::Checking,
        step.1 == ConnectionAction::CheckClosed,
{
    (ConnectionState::Checking, ConnectionAction::CheckClosed)
}

fn after_poll(outcome: PollOutcome) -> (step: (ConnectionState, ConnectionAction))
    ensures
        moves(ConnectionState::Polling, ConnectionEvent::Polled(outcome), step.0, step.1),
{
    match outcome {
        PollOutcome::Headers { stream_id, headers } => {
            let request = parse_request_headers(headers);
            (ConnectionState::Handling { stream_id }, ConnectionAction::HandleRequest(request))
        },
        PollOutcome::Other => next_round(),
        PollOutcome::Idle => (ConnectionState::Pausing, ConnectionAction::Sleep(1)),
        PollOutcome::Failed(text) => {
            let message = join("HTTP/3事件处理错误: ", text.as_str());
            (ConnectionState::Reporting, ConnectionAction::Notify(Notice::Error(message)))
        },
    }
}

/// What a connection does next, given what was reported.
pub fn handle_connection(state: ConnectionState, event: ConnectionEvent) -> (step: (
    ConnectionState,
    ConnectionAction,
))
    ensures
        moves(state, event, step.0, step.1),
{
    match (state, event) {
        (ConnectionState::Greeting, ConnectionEvent::Done) => {
            (ConnectionState::Configuring, ConnectionAction::CreateConfig)
        },
        (ConnectionState::Configuring, ConnectionEvent::Tried(tried)) => match tried {
            Ok(_) => (ConnectionState::Opening, ConnectionAction::CreateHttp3),
            Err(text) => (
                ConnectionState::Finished,
                http3_failure("创建HTTP/3配置失败: ", &text),
            ),
        },
        (ConnectionState::Opening, ConnectionEvent::Tried(tried)) => match tried {
            Ok(_) => next_round(),
            Err(text) => (
                ConnectionState::Finished,
                http3_failure("创建HTTP/3连接失败: ", &text),
            ),
        },
        (ConnectionState::Checking, ConnectionEvent::Closed(closed)) => if closed {
            closing()
        } else {
            (ConnectionState::Polling, ConnectionAction::Poll)
        },
        (ConnectionState::Polling, ConnectionEvent::Polled(outcome)) => after_poll(outcome),
        (ConnectionState::Handling { stream_id }, ConnectionEvent::Answered(response)) => (
            ConnectionState::Answering { stream_id, body: response.body },
            ConnectionAction::SendHeaders {
                stream_id,
                headers: response_headers(response.status),
                fin: false,
            },
        ),
        (ConnectionState::Answering { stream_id, body }, ConnectionEvent::Tried(_)) => match body {
            Some(body) => (
                ConnectionState::SendingBody,
                ConnectionAction::SendBody { stream_id, body, fin: true },
            ),
            None => next_round(),
        },
        (ConnectionState::SendingBody, ConnectionEvent::Tried(_)) => next_round(),
        (ConnectionState::Pausing, ConnectionEvent::Done) => next_round(),
        (ConnectionState::Reporting, ConnectionEvent::Done) => closing(),
        (ConnectionState::Closing, ConnectionEvent::Done) => {
            (ConnectionState::Finished, ConnectionAction::Finish(Ok(())))
        },
        (state, _) => (state, ConnectionAction::Wait),
    }
}

/// Has the handler answer a request, and goes on with its answer.
pub fn answer_request<H: Http3EventHandler + ?Sized>(
    handler: &H,
    state: ConnectionState,
    request: Http3Request,
) -> (step: (ConnectionState, ConnectionAction))
    ensures
        exists|response: Http3Response| #[trigger]
            call_ensures(H::on_request, (handler, request), response) && moves(
                state,
                ConnectionEvent::Answered(response),
                step.0,
                step.1,
            ) && call_ensures(
                handle_connection,
                (state, ConnectionEvent::Answered(response)),
                step,
            ),
{
    let response = handler.on_request(request);
    let step = handle_connection(state, ConnectionEvent::Answered(response));
    assert(call_ensures(handle_connection, (state, ConnectionEvent::Answered(response)), step));
    step
}

/// The course of a connection so far: the states it was in, what was reported in each, and the
/// action that each state was entered with.
pub open spec fn is_course(
    states: Seq<ConnectionState>,
    events: Seq<ConnectionEvent>,
    actions: Seq<ConnectionAction>,
) -> bool {
    &&& states.len() == events.len() + 1
    &&& actions.len() == states.len()
    &&& states[0] == ConnectionState::Greeting
    &&& actions[0] == ConnectionAction::Notify(Notice::Established)
    &&& forall|i: int|
        #![trigger events[i]]
        0 <= i < events.len() ==> moves(states[i], events[i], states[i + 1], actions[i + 1])
}

/// HTTP/3 is not set up yet.
pub open spec fn is_setting_up(state: ConnectionState) -> bool {
    state is Greeting || state is Configuring || state is Opening
}

/// The connection is on its way out: no more events are fetched.
pub open spec fn is_ending(state: ConnectionState) -> bool {
    state is Closing || state is Finished
}

proof fn lemma_set_up_before(
    states: Seq<ConnectionState>,
    events: Seq<ConnectionEvent>,
    actions: Seq<ConnectionAction>,
    i: int,
    k: int,
)
    requires
        is_course(states, events, actions),
        0 <= i <= k < states.len(),
        is_setting_up(states[k]),
    ensures
        is_setting_up(states[i]),
    decreases k - i,
{
    if i < k {
        assert(moves(states[k - 1], events[k - 1], states[k], actions[k]));
        lemma_set_up_before(states, events, actions, i, k - 1);
    }
}

proof fn lemma_ending_after(
    states: Seq<ConnectionState>,
    events: Seq<ConnectionEvent>,
    actions: Seq<ConnectionAction>,
    i: int,
    k: int,
)
    requires
        is_course(states, events, actions),
        0 <= i <= k < states.len(),
        is_ending(states[i]),
    ensures
        is_ending(states[k]),
        states[i] is Finished ==> states[k] is Finished,
    decreases k - i,
{
    if i < k {
        lemma_ending_after(states, events, actions, i, k - 1);
        assert(moves(states[k - 1], events[k - 1], states[k], actions[k]));
    }
}

/// The connection is entered into `Closing` by telling the handler so.
proof fn lemma_closing_was_told(
    states: Seq<ConnectionState>,
    events: Seq<ConnectionEvent>,
    actions: Seq<ConnectionAction>,
    k: int,
) -> (told: int)
    requires
        is_course(states, events, actions),
        0 <= k < states.len(),
        states[k] is Closing,
    ensures
        0 <= told <= k,
        actions[told] == ConnectionAction::Notify(Notice::Closed),
    decreases k,
{
    if k > 0 {
        assert(moves(states[k - 1], events[k - 1], states[k], actions[k]));
        if states[k - 1] is Closing {
            lemma_closing_was_told(states, events, actions, k - 1)
        } else {
            k
        }
    } else {
        0
    }
}

/// The handler is told first of all that the connection is there, and never again.
pub proof fn established_is_told_first_and_once(
    states: Seq<ConnectionState>,
    events: Seq<ConnectionEvent>,
    actions: Seq<ConnectionAction>,
    k: int,
)
    requires
        is_course(states, events, actions),
        0 <= k < actions.len(),
    ensures
        actions[k] == ConnectionAction::Notify(Notice::Established) <==> k == 0,
{
    if k > 0 {
        assert(moves(states[k - 1], events[k - 1], states[k], actions[k]));
    }
}

/// The handler is told at most once that the connection is gone.
pub proof fn closed_is_told_at_most_once(
    states: Seq<ConnectionState>,
    events: Seq<ConnectionEvent>,
    actions: Seq<ConnectionAction>,
    i: int,
    k: int,
)
    requires
        is_course(states, events, actions),
        0 <= i < actions.len(),
        0 <= k < actions.len(),
        actions[i] == ConnectionAction::Notify(Notice::Closed),
        actions[k] == ConnectionAction::Notify(Notice::Closed),
    ensures
        i == k,
{
    assert(moves(states[i - 1], events[i - 1], states[i], actions[i]));
    assert(moves(states[k - 1], events[k - 1], states[k], actions[k]));
    if i < k {
        lemma_ending_after(states, events, actions, i, k - 1);
    } else if k < i {
        lemma_ending_after(states, events, actions, k, i - 1);
    }
}

/// A connection that ends well has told the handler that it is gone. One that ends with an error
/// could not be set up: the handler was not told that it is gone, and no request was handed over.
pub proof fn how_a_connection_ends(
    states: Seq<ConnectionState>,
    events: Seq<ConnectionEvent>,
    actions: Seq<ConnectionAction>,
    k: int,
)
    requires
        is_course(states, events, actions),
        0 <= k < actions.len(),
        actions[k] is Finish,
    ensures
        actions[k]->Finish_0 is Ok ==> exists|i: int|
            0 <= i < k && #[trigger] actions[i] == ConnectionAction::Notify(Notice::Closed),
        actions[k]->Finish_0 is Err ==> forall|i: int|
            0 <= i < k ==> #[trigger] actions[i] != ConnectionAction::Notify(Notice::Closed)
                && !(actions[i] is HandleRequest),
{
    assert(moves(states[k - 1], events[k - 1], states[k], actions[k]));
    if actions[k]->Finish_0 is Ok {
        let told = lemma_closing_was_told(states, events, actions, k - 1);
        assert(actions[told] == ConnectionAction::Notify(Notice::Closed));
    } else {
        assert forall|i: int| 0 <= i < k implies #[trigger] actions[i] != ConnectionAction::Notify(
            Notice::Closed,
        ) && !(actions[i] is HandleRequest) by {
            lemma_set_up_before(states, events, actions, i, k - 1);
            if i > 0 {
                assert(moves(states[i - 1], events[i - 1], states[i], actions[i]));
            }
        }
    }
}

/// Once the result is returned, nothing more is done, whatever is reported.
pub proof fn nothing_follows_the_end(
    states: Seq<ConnectionState>,
    events: Seq<ConnectionEvent>,
    actions: Seq<ConnectionAction>,
    i: int,
    k: int,
)
    requires
        is_course(states, events, actions),
        0 <= i < k < actions.len(),
        actions[i] is Finish,
    ensures
        actions[k] == ConnectionAction::Wait,
{
    assert(moves(states[i - 1], events[i - 1], states[i], actions[i]));
    lemma_ending_after(states, events, actions, i, k - 1);
    assert(moves(states[k - 1], events[k - 1], states[k], actions[k]));
}

/// An error in fetching events is reported to the handler once, and then the connection is
/// over: no request is handed over after it.
pub proof fn a_fetching_error_ends_the_connection(
    states: Seq<ConnectionState>,
    events: Seq<ConnectionEvent>,
    actions: Seq<ConnectionAction>,
    i: int,
    k: int,
)
    requires
        is_course(states, events, actions),
        0 <= i < k < actions.len(),
        actions[i] matches ConnectionAction::Notify(Notice::Error(_)),
    ensures
        actions[k] == ConnectionAction::Wait || actions[k] == ConnectionAction::Notify(
            Notice::Closed,
        ) || actions[k] == ConnectionAction::Finish(Ok(())),
        states[k] is Reporting || is_ending(states[k]),
    decreases k - i,
{
    assert(moves(states[i - 1], events[i - 1], states[i], actions[i]));
    assert(moves(states[k - 1], events[k - 1], states[k], actions[k]));
    if i + 1 < k {
        a_fetching_error_ends_the_connection(states, events, actions, i, k - 1);
    }
}

/// A request that comes in is answered on its own stream: the header fields carry the status of
/// the handler's answer, its body follows them and ends the stream, and then the next event is
/// seen to. Whether sending succeeds makes no difference.
pub proof fn a_request_is_answered(
    stream_id: u64,
    headers: Vec<Header>,
    handling: ConnectionState,
    handed: ConnectionAction,
    response: Http3Response,
    answering: ConnectionState,
    answer: ConnectionAction,
    headers_sent: Result<(), String>,
    after_headers: ConnectionState,
    second: ConnectionAction,
    body_sent: Result<(), String>,
    after_body: ConnectionState,
    third: ConnectionAction,
)
    requires
        moves(
            ConnectionState::Polling,
            ConnectionEvent::Polled(PollOutcome::Headers { stream_id, headers }),
            handling,
            handed,
        ),
        moves(handling, ConnectionEvent::Answered(response), answering, answer),
        moves(answering, ConnectionEvent::Tried(headers_sent), after_headers, second),
        moves(after_headers, ConnectionEvent::Tried(body_sent), after_body, third),
    ensures
        hands_over(handed, headers@),
        sends_status(answer, stream_id, response.status),
        match response.body {
            Some(body) => second == (ConnectionAction::SendBody { stream_id, body, fin: true })
                && after_body == ConnectionState::Checking && third
                == ConnectionAction::CheckClosed,
            None => after_headers == ConnectionState::Checking && second
                == ConnectionAction::CheckClosed,
        },
{
}

/// The status of an answer can be read back from the header fields that it is sent with.
pub proof fn the_status_sent_reads_back(action: ConnectionAction, stream: u64, status: u64)
    requires
        sends_status(action, stream, status),
    ensures
        action matches ConnectionAction::SendHeaders { headers, .. } && crate::text::decimal_value(
            crate::wire::last_text(crate::wire::fields(headers@), ":status"@),
        ) == status,
{
    let headers = action->SendHeaders_headers;
    let texts = crate::wire::response_texts(status);
    let list = crate::wire::fields(headers@);
    reveal_strlit(":status");
    reveal_strlit("content-type");
    vstd::utf8::encode_utf8_decode_utf8(":status"@);
    vstd::utf8::encode_utf8_decode_utf8("content-type"@);
    assert(":status"@.len() != "content-type"@.len());
    reveal_with_fuel(crate::wire::last_value, 3);
    assert(list.last() == crate::wire::encoded(texts[1]));
    assert(list.drop_last().last() == crate::wire::encoded(texts[0]));
    vstd::utf8::encode_utf8_valid_utf8(crate::text::decimal(status as nat));
    vstd::utf8::encode_utf8_decode_utf8(crate::text::decimal(status as nat));
    crate::text::decimal_reads_back(status as nat);
}

/// The handler is handed the request that a client has sent.
pub proof fn the_handler_gets_the_request_sent(
    sent: Http3Request,
    stream_id: u64,
    headers: Vec<Header>,
    next: ConnectionState,
    action: ConnectionAction,
)
    requires
        crate::wire::fields(headers@) == crate::wire::all_encoded(crate::wire::request_texts(sent)),
        forall|name: Seq<char>| #[trigger]
            sent.headers@.contains_key(name) ==> !crate::wire::is_pseudo_text(name),
        moves(
            ConnectionState::Polling,
            ConnectionEvent::Polled(PollOutcome::Headers { stream_id, headers }),
            next,
            action,
        ),
    ensures
        action matches ConnectionAction::HandleRequest(received) && received.method@
            == sent.method@ && received.scheme@ == sent.scheme@ && received.authority@
            == sent.authority@ && received.path@ == sent.path@ && received.headers@
            == sent.headers@,
{
    let received = action->HandleRequest_0;
    crate::wire::received_request_is_the_one_sent(sent, received);
}

/// The event is one that the action asks to be reported.
pub open spec fn is_report_on(event: ConnectionEvent, action: ConnectionAction) -> bool {
    match action {
        ConnectionAction::Notify(_) | ConnectionAction::Sleep(_) => event is Done,
        ConnectionAction::CreateConfig
        | ConnectionAction::CreateHttp3
        | ConnectionAction::SendHeaders { .. }
        | ConnectionAction::SendBody { .. } => event is Tried,
        ConnectionAction::CheckClosed => event is Closed,
        ConnectionAction::Poll => event is Polled,
        ConnectionAction::HandleRequest(_) => event is Answered,
        ConnectionAction::Finish(_) | ConnectionAction::Wait => false,
    }
}

/// The action is what a connection in this state waits for.
pub open spec fn is_pending(state: ConnectionState, action: ConnectionAction) -> bool {
    match state {
        ConnectionState::Greeting | ConnectionState::Reporting | ConnectionState::Closing => {
            action is Notify
        },
        ConnectionState::Configuring => action is CreateConfig,
        ConnectionState::Opening => action is CreateHttp3,
        ConnectionState::Checking => action is CheckClosed,
        ConnectionState::Polling => action is Poll,
        ConnectionState::Handling { .. } => action is HandleRequest,
        ConnectionState::Answering { .. } => action is SendHeaders,
        ConnectionState::SendingBody => action is SendBody,
        ConnectionState::Pausing => action is Sleep,
        ConnectionState::Finished => action is Finish,
    }
}

/// A driver that reports what it was asked for is always told what to do next, until the result
/// is returned.
pub proof fn a_faithful_driver_never_waits(
    states: Seq<ConnectionState>,
    events: Seq<ConnectionEvent>,
    actions: Seq<ConnectionAction>,
    k: int,
)
    requires
        is_course(states, events, actions),
        forall|i: int|
            #![trigger events[i]]
            0 <= i < events.len() ==> is_report_on(events[i], actions[i]),
        0 <= k < actions.len(),
    ensures
        is_pending(states[k], actions[k]),
        actions[k] != ConnectionAction::Wait,
    decreases k,
{
    if k > 0 {
        a_faithful_driver_never_waits(states, events, actions, k - 1);
        assert(moves(states[k - 1], events[k - 1], states[k], actions[k]));
        assert(is_report_on(events[k - 1], actions[k - 1]));
    }
}

/// How many of the actions are to tell the handler this.
pub open spec fn times_told(actions: Seq<ConnectionAction>, notice: Notice) -> nat
    decreases actions.len(),
{
    if actions.len() == 0 {
        0
    } else {
        times_told(actions.drop_last(), notice) + if actions.last() == ConnectionAction::Notify(
            notice,
        ) {
            1nat
        } else {
            0nat
        }
    }
}

proof fn lemma_times_told_step(actions: Seq<ConnectionAction>, k: int, notice: Notice)
    requires
        0 <= k < actions.len(),
    ensures
        times_told(actions.take(k + 1), notice) == times_told(actions.take(k), notice)
            + if actions[k] == ConnectionAction::Notify(notice) {
            1nat
        } else {
            0nat
        },
{
    assert(actions.take(k + 1).drop_last() =~= actions.take(k));
    assert(actions.take(k + 1).last() == actions[k]);
}

/// How often the handler has been told what in each state but the last.
proof fn lemma_told_so_far(
    states: Seq<ConnectionState>,
    events: Seq<ConnectionEvent>,
    actions: Seq<ConnectionAction>,
    k: int,
)
    requires
        is_course(states, events, actions),
        0 <= k < actions.len(),
    ensures
        times_told(actions.take(k + 1), Notice::Established) == 1,
        states[k] is Closing ==> times_told(actions.take(k + 1), Notice::Closed) == 1,
        !is_ending(states[k]) ==> times_told(actions.take(k + 1), Notice::Closed) == 0,
    decreases k,
{
    lemma_times_told_step(actions, k, Notice::Established);
    lemma_times_told_step(actions, k, Notice::Closed);
    if k == 0 {
        assert(actions.take(0).len() == 0);
    } else {
        lemma_told_so_far(states, events, actions, k - 1);
        assert(moves(states[k - 1], events[k - 1], states[k], actions[k]));
    }
}

/// What the handler has been told in the course of a connection that is over: once that it is
/// there, and once that it is gone, unless it could not be set up.
pub proof fn what_the_handler_was_told(
    states: Seq<ConnectionState>,
    events: Seq<ConnectionEvent>,
    actions: Seq<ConnectionAction>,
    result: Result<(), TquicError>,
)
    requires
        is_course(states, events, actions),
        actions.last() == ConnectionAction::Finish(result),
    ensures
        times_told(actions, Notice::Established) == 1,
        times_told(actions, Notice::Closed) == if result is Ok {
            1nat
        } else {
            0nat
        },
{
    let k = actions.len() - 1;
    lemma_times_told_step(actions, k, Notice::Established);
    lemma_times_told_step(actions, k, Notice::Closed);
    assert(actions.take(k + 1) =~= actions);
    lemma_told_so_far(states, events, actions, k - 1);
    assert(moves(states[k - 1], events[k - 1], states[k], actions[k]));
}

/// The connection is between two requests: it looks whether it is closed, fetches an event, or
/// lets a moment pass.
pub open spec fn is_between_requests(state: ConnectionState) -> bool {
    state is Checking || state is Polling || state is Pausing
}

/// The event is one that a connection in this state waits for.
pub open spec fn is_awaited(state: ConnectionState, event: ConnectionEvent) -> bool {
    match state {
        ConnectionState::Greeting
        | ConnectionState::Pausing
        | ConnectionState::Reporting
        | ConnectionState::Closing => event is Done,
        ConnectionState::Configuring
        | ConnectionState::Opening
        | ConnectionState::Answering { .. }
        | ConnectionState::SendingBody => event is Tried,
        ConnectionState::Checking => event is Closed,
        ConnectionState::Polling => event is Polled,
        ConnectionState::Handling { .. } => event is Answered,
        ConnectionState::Finished => false,
    }
}

/// The event is one that a connection passes over: fetching gave nothing or an event that is not
/// the header fields of a request, the connection is still open, a moment has passed, or the
/// report was not waited for.
pub open spec fn is_passed_over(state: ConnectionState, event: ConnectionEvent) -> bool {
    ||| !is_awaited(state, event)
    ||| event == ConnectionEvent::Polled(PollOutcome::Idle)
    ||| event == ConnectionEvent::Polled(PollOutcome::Other)
    ||| event == ConnectionEvent::Closed(false)
    ||| state is Pausing
}

/// An event as far as it counts: whether an answer could be sent does not.
pub open spec fn as_it_counts(state: ConnectionState, event: ConnectionEvent) -> ConnectionEvent {
    if state is Answering || state is SendingBody {
        ConnectionEvent::Tried(Ok(()))
    } else {
        event
    }
}

/// The first `n` events as far as they count, without those that were passed over.
pub open spec fn telling_events(
    states: Seq<ConnectionState>,
    events: Seq<ConnectionEvent>,
    n: nat,
) -> Seq<ConnectionEvent>
    decreases n,
{
    if n == 0 {
        Seq::empty()
    } else {
        let before = telling_events(states, events, (n - 1) as nat);
        if is_passed_over(states[n - 1], events[n - 1]) {
            before
        } else {
            before.push(as_it_counts(states[n - 1], events[n - 1]))
        }
    }
}

/// The action shows to the handler, to the other side, or in the result.
pub open spec fn is_visible(action: ConnectionAction) -> bool {
    !(action is CheckClosed || action is Poll || action is Sleep || action is Wait)
}

/// Those of the first `n` actions that show.
pub open spec fn visible_actions(actions: Seq<ConnectionAction>, n: nat) -> Seq<ConnectionAction>
    decreases n,
{
    if n == 0 {
        Seq::empty()
    } else {
        let before = visible_actions(actions, (n - 1) as nat);
        if is_visible(actions[n - 1]) {
            before.push(actions[n - 1])
        } else {
            before
        }
    }
}

/// Both attempts succeeded, or both failed with the same text.
pub open spec fn same_outcome(a: Result<(), String>, b: Result<(), String>) -> bool {
    match (a, b) {
        (Ok(_), Ok(_)) => true,
        (Err(x), Err(y)) => x@ == y@,
        _ => false,
    }
}

/// The two events report the same. Of the handler's answers the status and the body count.
pub open spec fn same_event(a: ConnectionEvent, b: ConnectionEvent) -> bool {
    match (a, b) {
        (ConnectionEvent::Done, ConnectionEvent::Done) => true,
        (ConnectionEvent::Tried(x), ConnectionEvent::Tried(y)) => same_outcome(x, y),
        (ConnectionEvent::Closed(x), ConnectionEvent::Closed(y)) => x == y,
        (ConnectionEvent::Polled(x), ConnectionEvent::Polled(y)) => match (x, y) {
            (
                PollOutcome::Headers { stream_id: i, headers: g },
                PollOutcome::Headers { stream_id: j, headers: h },
            ) => i == j && crate::wire::fields(g@) == crate::wire::fields(h@),
            (PollOutcome::Failed(s), PollOutcome::Failed(t)) => s@ == t@,
            (PollOutcome::Other, PollOutcome::Other) => true,
            (PollOutcome::Idle, PollOutcome::Idle) => true,
            _ => false,
        },
        (ConnectionEvent::Answered(x), ConnectionEvent::Answered(y)) => x.status == y.status
            && crate::body::same_body(x.body, y.body),
        _ => false,
    }
}

/// The two lists report the same, event by event.
pub open spec fn same_events(a: Seq<ConnectionEvent>, b: Seq<ConnectionEvent>) -> bool {
    a.len() == b.len() && forall|i: int|
        0 <= i < a.len() ==> same_event(#[trigger] a[i], #[trigger] b[i])
}

/// The two requests are the same but for the time at which they were received.
pub open spec fn same_request(a: Http3Request, b: Http3Request) -> bool {
    &&& a.method@ == b.method@
    &&& a.scheme@ == b.scheme@
    &&& a.authority@ == b.authority@
    &&& a.path@ == b.path@
    &&& a.headers@ == b.headers@
    &&& crate::body::same_body(a.body, b.body)
}

/// The two notices say the same.
pub open spec fn same_notice(a: Notice, b: Notice) -> bool {
    match (a, b) {
        (Notice::Established, Notice::Established) => true,
        (Notice::Closed, Notice::Closed) => true,
        (Notice::Error(s), Notice::Error(t)) => s@ == t@,
        _ => false,
    }
}

/// Both results are that all went well, or both are HTTP/3 errors of the same text.
pub open spec fn same_result(a: Result<(), TquicError>, b: Result<(), TquicError>) -> bool {
    match (a, b) {
        (Ok(_), Ok(_)) => true,
        (Err(TquicError::Http3(s)), Err(TquicError::Http3(t))) => s@ == t@,
        _ => false,
    }
}

/// The two actions do the same.
pub open spec fn same_action(a: ConnectionAction, b: ConnectionAction) -> bool {
    match (a, b) {
        (ConnectionAction::Notify(x), ConnectionAction::Notify(y)) => same_notice(x, y),
        (ConnectionAction::CreateConfig, ConnectionAction::CreateConfig) => true,
        (ConnectionAction::CreateHttp3, ConnectionAction::CreateHttp3) => true,
        (ConnectionAction::HandleRequest(x), ConnectionAction::HandleRequest(y)) => {
            same_request(x, y)
        },
        (
            ConnectionAction::SendHeaders { stream_id: i, headers: g, fin: f },
            ConnectionAction::SendHeaders { stream_id: j, headers: h, fin: e },
        ) => i == j && crate::wire::fields(g@) == crate::wire::fields(h@) && f == e,
        (
            ConnectionAction::SendBody { stream_id: i, body: x, fin: f },
            ConnectionAction::SendBody { stream_id: j, body: y, fin: e },
        ) => i == j && crate::body::contents(x) == crate::body::contents(y) && f == e,
        (ConnectionAction::Finish(x), ConnectionAction::Finish(y)) => same_result(x, y),
        _ => false,
    }
}

/// The two lists do the same, action by action.
pub open spec fn same_actions(a: Seq<ConnectionAction>, b: Seq<ConnectionAction>) -> bool {
    a.len() == b.len() && forall|i: int|
        0 <= i < a.len() ==> same_action(#[trigger] a[i], #[trigger] b[i])
}

/// The two connections have come equally far: they are in the same state, with the same body
/// waiting, or both between two requests.
pub open spec fn same_progress(a: ConnectionState, b: ConnectionState) -> bool {
    match (a, b) {
        (ConnectionState::Greeting, ConnectionState::Greeting) => true,
        (ConnectionState::Configuring, ConnectionState::Configuring) => true,
        (ConnectionState::Opening, ConnectionState::Opening) => true,
        (
            ConnectionState::Handling { stream_id: i },
            ConnectionState::Handling { stream_id: j },
        ) => i == j,
        (
            ConnectionState::Answering { stream_id: i, body: x },
            ConnectionState::Answering { stream_id: j, body: y },
        ) => i == j && crate::body::same_body(x, y),
        (ConnectionState::SendingBody, ConnectionState::SendingBody) => true,
        (ConnectionState::Reporting, ConnectionState::Reporting) => true,
        (ConnectionState::Closing, ConnectionState::Closing) => true,
        (ConnectionState::Finished, ConnectionState::Finished) => true,
        _ => is_between_requests(a) && is_between_requests(b),
    }
}

/// An event that is passed over leads to nothing that shows, and no further.
proof fn lemma_passed_over(
    state: ConnectionState,
    event: ConnectionEvent,
    next: ConnectionState,
    action: ConnectionAction,
    other: ConnectionState,
)
    requires
        is_passed_over(state, event),
        moves(state, event, next, action),
        same_progress(state, other),
    ensures
        !is_visible(action),
        same_progress(next, other),
        same_progress(other, next),
{
}

/// The same event leads two connections that have come equally far equally far on.
proof fn lemma_same_step(
    state1: ConnectionState,
    event1: ConnectionEvent,
    next1: ConnectionState,
    action1: ConnectionAction,
    state2: ConnectionState,
    event2: ConnectionEvent,
    next2: ConnectionState,
    action2: ConnectionAction,
)
    requires
        same_progress(state1, state2),
        same_event(as_it_counts(state1, event1), as_it_counts(state2, event2)),
        !is_passed_over(state1, event1),
        !is_passed_over(state2, event2),
        moves(state1, event1, next1, action1),
        moves(state2, event2, next2, action2),
    ensures
        same_progress(next1, next2),
        is_visible(action1) == is_visible(action2),
        is_visible(action1) ==> same_action(action1, action2),
{
}

proof fn lemma_same_course(
    states1: Seq<ConnectionState>,
    events1: Seq<ConnectionEvent>,
    actions1: Seq<ConnectionAction>,
    n1: nat,
    states2: Seq<ConnectionState>,
    events2: Seq<ConnectionEvent>,
    actions2: Seq<ConnectionAction>,
    n2: nat,
)
    requires
        is_course(states1, events1, actions1),
        is_course(states2, events2, actions2),
        n1 <= events1.len(),
        n2 <= events2.len(),
        same_events(telling_events(states1, events1, n1), telling_events(states2, events2, n2)),
    ensures
        same_progress(states1[n1 as int], states2[n2 as int]),
        same_progress(states2[n2 as int], states1[n1 as int]),
        same_actions(visible_actions(actions1, n1 + 1), visible_actions(actions2, n2 + 1)),
    decreases n1 + n2,
{
    let told1 = telling_events(states1, events1, n1);
    let told2 = telling_events(states2, events2, n2);
    if n1 > 0 {
        assert(moves(states1[n1 - 1], events1[n1 - 1], states1[n1 as int], actions1[n1 as int]));
    }
    if n2 > 0 {
        assert(moves(states2[n2 - 1], events2[n2 - 1], states2[n2 as int], actions2[n2 as int]));
    }
    if n1 > 0 && is_passed_over(states1[n1 - 1], events1[n1 - 1]) {
        lemma_same_course(
            states1,
            events1,
            actions1,
            (n1 - 1) as nat,
            states2,
            events2,
            actions2,
            n2,
        );
        lemma_passed_over(
            states1[n1 - 1],
            events1[n1 - 1],
            states1[n1 as int],
            actions1[n1 as int],
            states2[n2 as int],
        );
    } else if n2 > 0 && is_passed_over(states2[n2 - 1], events2[n2 - 1]) {
        lemma_same_course(
            states1,
            events1,
            actions1,
            n1,
            states2,
            events2,
            actions2,
            (n2 - 1) as nat,
        );
        lemma_passed_over(
            states2[n2 - 1],
            events2[n2 - 1],
            states2[n2 as int],
            actions2[n2 as int],
            states1[n1 as int],
        );
    } else if n1 > 0 && n2 > 0 {
        let before1 = telling_events(states1, events1, (n1 - 1) as nat);
        let before2 = telling_events(states2, events2, (n2 - 1) as nat);
        assert(told1 == before1.push(as_it_counts(states1[n1 - 1], events1[n1 - 1])));
        assert(told2 == before2.push(as_it_counts(states2[n2 - 1], events2[n2 - 1])));
        assert(same_events(before1, before2)) by {
            assert forall|i: int| 0 <= i < before1.len() implies same_event(
                #[trigger] before1[i],
                #[trigger] before2[i],
            ) by {
                assert(same_event(told1[i], told2[i]));
            }
        }
        assert(same_event(told1[before1.len() as int], told2[before2.len() as int]));
        lemma_same_course(
            states1,
            events1,
            actions1,
            (n1 - 1) as nat,
            states2,
            events2,
            actions2,
            (n2 - 1) as nat,
        );
        lemma_same_step(
            states1[n1 - 1],
            events1[n1 - 1],
            states1[n1 as int],
            actions1[n1 as int],
            states2[n2 - 1],
            events2[n2 - 1],
            states2[n2 as int],
            actions2[n2 as int],
        );
        lemma_same_step(
            states2[n2 - 1],
            events2[n2 - 1],
            states2[n2 as int],
            actions2[n2 as int],
            states1[n1 - 1],
            events1[n1 - 1],
            states1[n1 as int],
            actions1[n1 as int],
        );
        let shown1 = visible_actions(actions1, n1);
        let shown2 = visible_actions(actions2, n2);
        let after1 = visible_actions(actions1, n1 + 1);
        let after2 = visible_actions(actions2, n2 + 1);
        assert forall|i: int| 0 <= i < after1.len() implies same_action(
            #[trigger] after1[i],
            #[trigger] after2[i],
        ) by {
            if i < shown1.len() {
                assert(same_action(shown1[i], shown2[i]));
            }
        }
    } else {
        assert(told1.len() == told2.len());
        reveal_with_fuel(visible_actions, 2);
    }
}

/// What a connection passes over leaves no trace. Two courses in which the same happens but for
/// events that are passed over, such as fetches that give nothing or something other than a
/// request, and for whether answers could be sent, tell the handler the same, hand it the same requests, send the same header fields and
/// bodies on the same streams, and come to the same result, all in the same order.
pub proof fn what_is_passed_over_leaves_no_trace(
    states1: Seq<ConnectionState>,
    events1: Seq<ConnectionEvent>,
    actions1: Seq<ConnectionAction>,
    states2: Seq<ConnectionState>,
    events2: Seq<ConnectionEvent>,
    actions2: Seq<ConnectionAction>,
)
    requires
        is_course(states1, events1, actions1),
        is_course(states2, events2, actions2),
        same_events(
            telling_events(states1, events1, events1.len()),
            telling_events(states2, events2, events2.len()),
        ),
    ensures
        same_actions(
            visible_actions(actions1, actions1.len()),
            visible_actions(actions2, actions2.len()),
        ),
        same_progress(states1.last(), states2.last()),
{
    lemma_same_course(
        states1,
        events1,
        actions1,
        events1.len(),
        states2,
        events2,
        actions2,
        events2.len(),
    );
}

} // verus!
