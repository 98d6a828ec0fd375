//! The client: how it connects and disconnects, and when it may send requests.

use vstd::prelude::*;

use crate::error::TquicError;
use crate::handler::Notice;
use crate::message::Http3Request;
use crate::sending::{begin_sending, SendAction, SendState};
use crate::service::{EnterpriseHttp3, ServiceAction};

verus! {

/// How far the start of a client has come: what was asked of the driver last.
#[derive(Debug, Clone, Copy, PartialEq, Eq, Structural)]
pub enum ClientPhase {
    /// No start is going on.
    Idle,
    /// A connection is begun.
    Connecting,
    /// The connection is waited for.
    Waiting,
    /// The address of the other side is looked up.
    Asking,
    /// The handler is told that the connection is there.
    Greeting,
}

/// An HTTP/3 client. `A` is the type of network addresses.
#[derive(Debug)]
pub struct EnterpriseHttp3Client<A> {
    remote_addr: A,
    connected: bool,
    running: bool,
    phase: ClientPhase,
}

/// What there is to know of a client.
pub struct ClientModel<A> {
    /// The address of the server.
    pub remote_addr: A,
    /// Whether it has a connection.
    pub connected: bool,
    /// Whether it has been started and has not been stopped since.
    pub running: bool,
    /// How far its start has come.
    pub phase: ClientPhase,
}

impl<A> View for EnterpriseHttp3Client<A> {
    type V = ClientModel<A>;

    closed spec fn view(&self) -> ClientModel<A> {
        ClientModel {
            remote_addr: self.remote_addr,
            connected: self.connected,
            running: self.running,
            phase: self.phase,
        }
    }
}

/// The action is to connect to `localhost` at the address.
pub open spec fn connects_to<A>(action: ServiceAction<A>, address: A) -> bool {
    action matches ServiceAction::Connect { addr, server_name } && addr == address && server_name@
        == "localhost"@
}

/// The action is to close the connection because the client shuts down.
pub open spec fn closes_for_shutdown<A>(action: ServiceAction<A>) -> bool {
    action matches ServiceAction::CloseConnection { app, code, reason } && !app && code == 0
        && reason@ == vstd::utf8::encode_utf8("client_shutdown"@)
}

impl<A> ClientModel<A> {
    /// The client with its start at another phase.
    pub open spec fn at(self, phase: ClientPhase) -> ClientModel<A> {
        ClientModel { phase, ..self }
    }

    /// What follows a step of the QUIC library: the connection is waited for, the other side's
    /// address is looked up, and the handler is told.
    pub open spec fn moves_on_tried(
        self,
        tried: Result<(), String>,
        next: ClientModel<A>,
        action: ServiceAction<A>,
    ) -> bool {
        match (self.phase, tried) {
            (ClientPhase::Connecting, Ok(_)) => {
                next == self.at(ClientPhase::Waiting) && action == ServiceAction::<
                    A,
                >::AwaitConnection
            },
            (ClientPhase::Waiting, Ok(_)) => {
                next == self.at(ClientPhase::Asking) && action == ServiceAction::<
                    A,
                >::AskPeerAddress
            },
            (ClientPhase::Asking, Ok(_)) => {
                next == self.at(ClientPhase::Greeting) && action == ServiceAction::<A>::Notify(
                    Notice::Established,
                )
            },
            (ClientPhase::Connecting, Err(text))
            | (ClientPhase::Waiting, Err(text))
            | (ClientPhase::Asking, Err(text)) => {
                next == self.at(ClientPhase::Idle) && action == ServiceAction::<A>::Finish(
                    Err(TquicError::Tquic(text)),
                )
            },
            _ => next == self && action == ServiceAction::<A>::Wait,
        }
    }

    /// What follows when the handler was told of the connection: the client has it and runs.
    pub open spec fn moves_on_told(self, next: ClientModel<A>, action: ServiceAction<A>) -> bool {
        if self.phase == ClientPhase::Greeting {
            next == (ClientModel {
                connected: true,
                running: true,
                phase: ClientPhase::Idle,
                ..self
            }) && action == ServiceAction::<A>::Finish(Ok(()))
        } else {
            next == self && action == ServiceAction::<A>::Wait
        }
    }

    /// A client that is stopped does not run and has no connection. One that had a connection
    /// first tells the handler that it is gone and then closes it.
    pub open spec fn stops(self, next: ClientModel<A>, actions: Seq<ServiceAction<A>>) -> bool {
        &&& next == (ClientModel { connected: false, running: false, ..self })
        &&& if self.connected {
            actions.len() == 2 && actions[0] == ServiceAction::<A>::Notify(Notice::Closed)
                && closes_for_shutdown(actions[1])
        } else {
            actions.len() == 0
        }
    }

    /// A request is taken where there is a connection, and refused where there is none.
    pub open spec fn takes(
        self,
        request: Http3Request,
        sending: Result<(SendState, SendAction), TquicError>,
    ) -> bool {
        if self.connected {
            sending == Ok::<(SendState, SendAction), TquicError>(
                (SendState::Configuring(request), SendAction::CreateConfig),
            )
        } else {
            sending matches Err(TquicError::Config(text)) && text@ == "客户端未连接"@
        }
    }
}

impl<A: Copy> EnterpriseHttp3Client<A> {
    /// Goes on with the start after a step of the QUIC library succeeded, or failed as the text
    /// says.
    pub fn tried(&mut self, tried: Result<(), String>) -> (action: ServiceAction<A>)
        ensures
            old(self)@.moves_on_tried(tried, final(self)@, action),
    {
        match (self.phase, tried) {
            (ClientPhase::Connecting, Ok(_)) => {
                self.phase = ClientPhase::Waiting;
                ServiceAction::AwaitConnection
            },
            (ClientPhase::Waiting, Ok(_)) => {
                self.phase = ClientPhase::Asking;
                ServiceAction::AskPeerAddress
            },
            (ClientPhase::Asking, Ok(_)) => {
                self.phase = ClientPhase::Greeting;
                ServiceAction::Notify(Notice::Established)
            },
            (ClientPhase::Connecting, Err(text))
            | (ClientPhase::Waiting, Err(text))
            | (ClientPhase::Asking, Err(text)) => {
                self.phase = ClientPhase::Idle;
                ServiceAction::Finish(Err(TquicError::Tquic(text)))
            },
            _ => ServiceAction::Wait,
        }
    }

    /// Goes on with the start after the handler was told of the connection.
    pub fn told(&mut self) -> (action: ServiceAction<A>)
        ensures
            old(self)@.moves_on_told(final(self)@, action),
    {
        match self.phase {
            ClientPhase::Greeting => {
                self.phase = ClientPhase::Idle;
                self.connected = true;
                self.running = true;
                ServiceAction::Finish(Ok(()))
            },
            _ => ServiceAction::Wait,
        }
    }
}

impl<A: Copy> EnterpriseHttp3<A> for EnterpriseHttp3Client<A> {
    open spec fn running(&self) -> bool {
        self@.running
    }

    open spec fn address(&self) -> A {
        self@.remote_addr
    }

    /// A client needs an endpoint from the first: where none could be opened, no client is made.
    fn new(addr: A, endpoint: Result<(), String>) -> (service: Result<Self, TquicError>)
        ensures
            match endpoint {
                Ok(_) => service matches Ok(s) && s@ == (ClientModel {
                    remote_addr: addr,
                    connected: false,
                    running: false,
                    phase: ClientPhase::Idle,
                }),
                Err(text) => service == Err::<Self, TquicError>(TquicError::Tquic(text)),
            },
    {
        match endpoint {
            Ok(_) => Ok(
                EnterpriseHttp3Client {
                    remote_addr: addr,
                    connected: false,
                    running: false,
                    phase: ClientPhase::Idle,
                },
            ),
            Err(text) => Err(TquicError::Tquic(text)),
        }
    }

    fn start(&mut self) -> (action: ServiceAction<A>)
        ensures
            connects_to(action, old(self)@.remote_addr),
            final(self)@ == old(self)@.at(ClientPhase::Connecting),
    {
        self.phase = ClientPhase::Connecting;
        ServiceAction::Connect { addr: self.remote_addr, server_name: "localhost".to_owned() }
    }

    fn stop(&mut self) -> (actions: Vec<ServiceAction<A>>)
        ensures
            old(self)@.stops(final(self)@, actions@),
    {
        self.running = false;
        let mut actions: Vec<ServiceAction<A>> = Vec::new();
        if self.connected {
            self.connected = false;
            actions.push(ServiceAction::Notify(Notice::Closed));
            actions.push(
                ServiceAction::CloseConnection {
                    app: false,
                    code: 0,
                    reason: "client_shutdown".as_bytes_vec(),
                },
            );
        }
        actions
    }

    fn send_request(&self, request: Http3Request) -> (sending: Result<
        (SendState, SendAction),
        TquicError,
    >)
        ensures
            self@.takes(request, sending),
    {
        if self.connected {
            Ok(begin_sending(request))
        } else {
            Err(TquicError::Config("客户端未连接".to_owned()))
        }
    }

    /// A client does not listen.
    fn local_addr(&self) -> (addr: Option<A>)
        ensures
            addr is None,
    {
        None
    }

    fn is_running(&self) -> (running: bool) {
        self.running
    }
}

/// A start of which no step fails: the client connects to its server, waits for the connection,
/// looks up the other side's address and tells the handler; then it has a connection and runs.
/// `steps` are the four states that it goes through after the first, and `actions` what each is
/// entered with.
pub proof fn a_start_without_failure<A>(
    client: ClientModel<A>,
    steps: Seq<ClientModel<A>>,
    actions: Seq<ServiceAction<A>>,
)
    requires
        client.phase == ClientPhase::Connecting,
        steps.len() == 4,
        actions.len() == 4,
        client.moves_on_tried(Ok(()), steps[0], actions[0]),
        steps[0].moves_on_tried(Ok(()), steps[1], actions[1]),
        steps[1].moves_on_tried(Ok(()), steps[2], actions[2]),
        steps[2].moves_on_told(steps[3], actions[3]),
    ensures
        actions[0] == ServiceAction::<A>::AwaitConnection,
        actions[1] == ServiceAction::<A>::AskPeerAddress,
        actions[2] == ServiceAction::<A>::Notify(Notice::Established),
        actions[3] == ServiceAction::<A>::Finish(Ok(())),
        steps[3] == (ClientModel {
            connected: true,
            running: true,
            phase: ClientPhase::Idle,
            ..client
        }),
{
}

/// A start that fails leaves the client as it was but for the phase: whether it runs and whether
/// it has a connection are untouched.
pub proof fn a_failed_start_changes_nothing<A>(
    client: ClientModel<A>,
    tried: Result<(), String>,
    next: ClientModel<A>,
    action: ServiceAction<A>,
)
    requires
        client.moves_on_tried(tried, next, action),
        action is Finish,
    ensures
        action->Finish_0 is Err,
        next == client.at(ClientPhase::Idle),
{
}

/// A client that was stopped refuses requests, and stopping it once more does nothing.
pub proof fn a_stopped_client_stays_stopped<A>(
    client: ClientModel<A>,
    stopped: ClientModel<A>,
    first: Seq<ServiceAction<A>>,
    again: ClientModel<A>,
    second: Seq<ServiceAction<A>>,
    request: Http3Request,
    sending: Result<(SendState, SendAction), TquicError>,
)
    requires
        client.stops(stopped, first),
        stopped.stops(again, second),
        stopped.takes(request, sending),
    ensures
        sending is Err,
        again == stopped,
        second.len() == 0,
{
}

/// A client has a connection exactly while it runs, in every state that its methods lead to.
pub open spec fn is_consistent<A>(client: ClientModel<A>) -> bool {
    client.connected == client.running
}

/// Whatever is done with a client, it has a connection exactly while it runs.
pub proof fn connected_exactly_while_running<A>(
    client: ClientModel<A>,
    tried: Result<(), String>,
    next: ClientModel<A>,
    action: ServiceAction<A>,
    actions: Seq<ServiceAction<A>>,
)
    requires
        is_consistent(client),
        client.moves_on_tried(tried, next, action) || client.moves_on_told(next, action)
            || client.stops(next, actions) || next == client.at(ClientPhase::Connecting),
    ensures
        is_consistent(next),
{
}

} // verus!
