//! How a running server accepts connections, and what it tells the handler of each.

use vstd::prelude::*;

use crate::error::TquicError;
use crate::handler::Notice;

verus! {

/// Where the accepting of connections stands: what was asked of the driver last.
#[derive(Debug)]
pub enum AcceptState {
    /// It is looked up whether the server still runs.
    Testing,
    /// A new connection is looked for.
    Accepting,
    /// The address of the other side is looked up.
    Asking,
    /// The handler is told that the connection is there.
    Greeting,
    /// The connection is given a worker of its own.
    Spawning,
    /// All is done.
    Stopped,
}

/// What the driver reports.
#[derive(Debug)]
pub enum AcceptEvent {
    /// Whether the server runs.
    Running(bool),
    /// Whether there is a new connection.
    Accepted(bool),
    /// Whether the address of the other side could be looked up.
    PeerKnown(bool),
    /// The handler was told, or the worker has begun.
    Done,
}

/// What the driver is to do next.
#[derive(Debug)]
pub enum AcceptAction {
    /// Look up whether the server still runs; report `Running`.
    TestRunning,
    /// Look for a new connection; report `Accepted`.
    Accept,
    /// Look up the address of the other side; report `PeerKnown`.
    AskPeerAddress,
    /// Tell the handler; report `Done`.
    Notify(Notice),
    /// Give the connection a worker of its own; report `Done`.
    SpawnWorker,
    /// There is nothing more to do.
    Finish,
    /// The report was not one that was waited for: nothing has changed.
    Wait,
}

/// The step to take when `event` is reported at `state`: the next state and what it is entered
/// with.
pub open spec fn accept_step(state: AcceptState, event: AcceptEvent) -> (
    AcceptState,
    AcceptAction,
) {
    match (state, event) {
        (AcceptState::Testing, AcceptEvent::Running(true)) => {
            (AcceptState::Accepting, AcceptAction::Accept)
        },
        (AcceptState::Testing, AcceptEvent::Running(false)) => {
            (AcceptState::Stopped, AcceptAction::Finish)
        },
        (AcceptState::Accepting, AcceptEvent::Accepted(true)) => {
            (AcceptState::Asking, AcceptAction::AskPeerAddress)
        },
        (AcceptState::Accepting, AcceptEvent::Accepted(false)) => {
            (AcceptState::Testing, AcceptAction::TestRunning)
        },
        (AcceptState::Asking, AcceptEvent::PeerKnown(true)) => {
            (AcceptState::Greeting, AcceptAction::Notify(Notice::Established))
        },
        (AcceptState::Asking, AcceptEvent::PeerKnown(false)) => {
            (AcceptState::Testing, AcceptAction::TestRunning)
        },
        (AcceptState::Greeting, AcceptEvent::Done) => {
            (AcceptState::Spawning, AcceptAction::SpawnWorker)
        },
        (AcceptState::Spawning, AcceptEvent::Done) => {
            (AcceptState::Testing, AcceptAction::TestRunning)
        },
        _ => (state, AcceptAction::Wait),
    }
}

/// Accepting begins with the question whether the server runs.
pub fn begin_accepting() -> (first: (AcceptState, AcceptAction))
    ensures
        first == (AcceptState::Testing, AcceptAction::TestRunning),
{
    (AcceptState::Testing, AcceptAction::TestRunning)
}

/// What the accepting of connections does next, given what was reported.
pub fn continue_accepting(state: AcceptState, event: AcceptEvent) -> (step: (
    AcceptState,
    AcceptAction,
))
    ensures
        step == accept_step(state, event),
{
    match (state, event) {
        (AcceptState::Testing, AcceptEvent::Running(running)) => if running {
            (AcceptState::Accepting, AcceptAction::Accept)
        } else {
            (AcceptState::Stopped, AcceptAction::Finish)
        },
        (AcceptState::Accepting, AcceptEvent::Accepted(accepted)) => if accepted {
            (AcceptState::Asking, AcceptAction::AskPeerAddress)
        } else {
            (AcceptState::Testing, AcceptAction::TestRunning)
        },
        (AcceptState::Asking, AcceptEvent::PeerKnown(known)) => if known {
            (AcceptState::Greeting, AcceptAction::Notify(Notice::Established))
        } else {
            (AcceptState::Testing, AcceptAction::TestRunning)
        },
        (AcceptState::Greeting, AcceptEvent::Done) => {
            (AcceptState::Spawning, AcceptAction::SpawnWorker)
        },
        (AcceptState::Spawning, AcceptEvent::Done) => {
            (AcceptState::Testing, AcceptAction::TestRunning)
        },
        (state, _) => (state, AcceptAction::Wait),
    }
}

/// What the handler is told when a worker has come to the end of its connection: the error that
/// it ended with, if any, and then that the connection is gone.
pub open spec fn are_worker_notices(result: Result<(), TquicError>, notices: Seq<Notice>) -> bool {
    match result {
        Ok(_) => notices == seq![Notice::Closed],
        Err(e) => exists|text: String| #[trigger]
            e.has_text(text@) && notices == seq![Notice::Error(text), Notice::Closed],
    }
}

/// What to tell the handler when a worker has come to the end of its connection.
pub fn worker_notices(result: Result<(), TquicError>) -> (notices: Vec<Notice>)
    ensures
        are_worker_notices(result, notices@),
{
    let mut notices: Vec<Notice> = Vec::new();
    match result {
        Ok(_) => {
            notices.push(Notice::Closed);
            assert(notices@ =~= seq![Notice::Closed]);
        },
        Err(e) => {
            let text = e.to_string();
            notices.push(Notice::Error(text));
            notices.push(Notice::Closed);
            assert(notices@ =~= seq![Notice::Error(text), Notice::Closed]);
        },
    }
    notices
}

/// The accepting of connections so far: the states it was in, what was reported in each, and the
/// action that each state was entered with.
pub open spec fn is_accepting(
    states: Seq<AcceptState>,
    events: Seq<AcceptEvent>,
    actions: Seq<AcceptAction>,
) -> bool {
    &&& states.len() == events.len() + 1
    &&& actions.len() == states.len()
    &&& states[0] == AcceptState::Testing
    &&& actions[0] == AcceptAction::TestRunning
    &&& forall|i: int|
        #![trigger events[i]]
        0 <= i < events.len() ==> (states[i + 1], actions[i + 1]) == accept_step(
            states[i],
            events[i],
        )
}

/// A connection gets a worker only after the handler was told of it, and between the two nothing
/// else is done.
pub proof fn a_worker_follows_the_notice(
    states: Seq<AcceptState>,
    events: Seq<AcceptEvent>,
    actions: Seq<AcceptAction>,
    k: int,
) -> (told: int)
    requires
        is_accepting(states, events, actions),
        0 <= k < actions.len(),
        actions[k] == AcceptAction::SpawnWorker,
    ensures
        0 < told < k,
        actions[told] == AcceptAction::Notify(Notice::Established),
        forall|i: int| told < i < k ==> #[trigger] actions[i] == AcceptAction::Wait,
{
    assert((states[k], actions[k]) == accept_step(states[k - 1], events[k - 1]));
    lemma_greeting_was_told(states, events, actions, k - 1)
}

proof fn lemma_greeting_was_told(
    states: Seq<AcceptState>,
    events: Seq<AcceptEvent>,
    actions: Seq<AcceptAction>,
    k: int,
) -> (told: int)
    requires
        is_accepting(states, events, actions),
        0 <= k < states.len(),
        states[k] == AcceptState::Greeting,
    ensures
        0 < told <= k,
        actions[told] == AcceptAction::Notify(Notice::Established),
        forall|i: int| told < i <= k ==> #[trigger] actions[i] == AcceptAction::Wait,
    decreases k,
{
    if k == 0 {
        0
    } else {
        assert((states[k], actions[k]) == accept_step(states[k - 1], events[k - 1]));
        if states[k - 1] == AcceptState::Greeting {
            lemma_greeting_was_told(states, events, actions, k - 1)
        } else {
            k
        }
    }
}

/// Once the server was found not to run, no more connections are accepted, whatever is reported.
pub proof fn a_stopped_server_accepts_nothing(
    states: Seq<AcceptState>,
    events: Seq<AcceptEvent>,
    actions: Seq<AcceptAction>,
    i: int,
    k: int,
)
    requires
        is_accepting(states, events, actions),
        0 <= i < k < actions.len(),
        states[i] == AcceptState::Testing,
        events[i] == AcceptEvent::Running(false),
    ensures
        states[k] == AcceptState::Stopped,
        actions[k] == if k == i + 1 {
            AcceptAction::Finish
        } else {
            AcceptAction::Wait
        },
    decreases k - i,
{
    assert((states[k], actions[k]) == accept_step(states[k - 1], events[k - 1]));
    if i + 1 < k {
        a_stopped_server_accepts_nothing(states, events, actions, i, k - 1);
    }
}

/// A new connection is looked for only right after the server was found to run.
pub proof fn a_server_accepts_only_while_it_runs(
    states: Seq<AcceptState>,
    events: Seq<AcceptEvent>,
    actions: Seq<AcceptAction>,
    k: int,
)
    requires
        is_accepting(states, events, actions),
        0 <= k < actions.len(),
        actions[k] == AcceptAction::Accept,
    ensures
        k > 0,
        states[k - 1] == AcceptState::Testing,
        events[k - 1] == AcceptEvent::Running(true),
{
    assert((states[k], actions[k]) == accept_step(states[k - 1], events[k - 1]));
}

/// The last thing that the handler hears of a connection is that it is gone, and it hears of an
/// error at the end exactly where the connection ended with one.
pub proof fn a_worker_ends_with_closed(result: Result<(), TquicError>, notices: Seq<Notice>)
    requires
        are_worker_notices(result, notices),
    ensures
        notices.last() == Notice::Closed,
        result is Err <==> exists|i: int| 0 <= i < notices.len() && (#[trigger] notices[i]) is Error,
{
    if result is Err {
        assert(notices[0] is Error);
    }
}

/// How often a notice stands in a list.
pub open spec fn times_listed(notices: Seq<Notice>, notice: Notice) -> nat {
    notices.to_multiset().count(notice)
}

/// What the handler of a server hears of a connection from its acceptance to its end. Twice that
/// the connection is there: when it is accepted and when it is handled. That it is gone: when it
/// was handled, unless it could not be set up, and when its worker ends.
pub proof fn what_a_handler_hears_of_a_connection(
    states: Seq<crate::connection::ConnectionState>,
    events: Seq<crate::connection::ConnectionEvent>,
    actions: Seq<crate::connection::ConnectionAction>,
    result: Result<(), TquicError>,
    accepted: Seq<Notice>,
    ended: Seq<Notice>,
)
    requires
        accepted == seq![Notice::Established],
        crate::connection::is_course(states, events, actions),
        actions.last() == crate::connection::ConnectionAction::Finish(result),
        are_worker_notices(result, ended),
    ensures
        times_listed(accepted, Notice::Established) + crate::connection::times_told(
            actions,
            Notice::Established,
        ) + times_listed(ended, Notice::Established) == 2,
        times_listed(accepted, Notice::Closed) + crate::connection::times_told(
            actions,
            Notice::Closed,
        ) + times_listed(ended, Notice::Closed) == if result is Ok {
            2nat
        } else {
            1nat
        },
{
    broadcast use vstd::seq_lib::group_to_multiset_ensures;

    crate::connection::what_the_handler_was_told(states, events, actions, result);
    let none = Seq::<Notice>::empty();
    assert(accepted =~= none.push(Notice::Established));
    match result {
        Ok(_) => {
            assert(ended =~= none.push(Notice::Closed));
        },
        Err(e) => {
            let text = choose|text: String| #[trigger]
                e.has_text(text@) && ended == seq![Notice::Error(text), Notice::Closed];
            assert(ended =~= none.push(Notice::Error(text)).push(Notice::Closed));
        },
    }
}

} // verus!
