//! The server: how it starts and stops.

use vstd::prelude::*;

use crate::certificate::{generate_temp_certificate, CertificateFiles, OutputFile};
use crate::config::create_server_config;
use crate::error::TquicError;
use crate::message::Http3Request;
use crate::sending::{SendAction, SendState};
use crate::service::{EnterpriseHttp3, ServiceAction};

verus! {

/// How far the start of a server has come: what was asked of the driver last.
#[derive(Debug)]
pub enum ServerPhase {
    /// No start is going on.
    Idle,
    /// The file of the certificate is written; that of the key waits.
    WritingCertificate(OutputFile),
    /// The file of the key is written.
    WritingKey,
    /// A QUIC configuration is made.
    BuildingConfig,
    /// A QUIC endpoint is opened.
    OpeningEndpoint,
    /// The endpoint begins to listen.
    Listening,
    /// The address that is listened on is looked up.
    AskingAddress,
}

/// An HTTP/3 server. `A` is the type of network addresses.
#[derive(Debug)]
pub struct EnterpriseHttp3Server<A> {
    addr: A,
    has_endpoint: bool,
    running: bool,
    phase: ServerPhase,
}

/// What there is to know of a server.
pub struct ServerModel<A> {
    /// The address that it is to listen on.
    pub addr: A,
    /// Whether it has an endpoint that listens.
    pub has_endpoint: bool,
    /// Whether it accepts connections.
    pub running: bool,
    /// How far its start has come.
    pub phase: ServerPhase,
}

impl<A> View for EnterpriseHttp3Server<A> {
    type V = ServerModel<A>;

    closed spec fn view(&self) -> ServerModel<A> {
        ServerModel {
            addr: self.addr,
            has_endpoint: self.has_endpoint,
            running: self.running,
            phase: self.phase,
        }
    }
}

/// The action is to make the QUIC configuration of a server.
pub open spec fn builds_server_config<A>(action: ServiceAction<A>) -> bool {
    action matches ServiceAction::BuildConfig(config) && crate::config::is_server_config(config)
}

impl<A> ServerModel<A> {
    /// The server with its start at another phase.
    pub open spec fn at(self, phase: ServerPhase) -> ServerModel<A> {
        ServerModel { phase, ..self }
    }

    /// The start ends with an error; all else stays.
    pub open spec fn gives_up(
        self,
        error: TquicError,
        next: ServerModel<A>,
        action: ServiceAction<A>,
    ) -> bool {
        next == self.at(ServerPhase::Idle) && action == ServiceAction::<A>::Finish(Err(error))
    }

    /// The start of a server, given what became of the making of a certificate: its file is
    /// written first.
    pub open spec fn starts(
        self,
        made: Result<CertificateFiles, TquicError>,
        next: ServerModel<A>,
        action: ServiceAction<A>,
    ) -> bool {
        match made {
            Ok(files) => next == self.at(ServerPhase::WritingCertificate(files.key)) && action
                == ServiceAction::<A>::WriteFile(files.certificate),
            Err(error) => self.gives_up(error, next, action),
        }
    }

    /// What follows the writing of a file: after the certificate the key is written, and after
    /// the key the configuration is made.
    pub open spec fn moves_on_written(
        self,
        written: Result<(), std::io::Error>,
        next: ServerModel<A>,
        action: ServiceAction<A>,
    ) -> bool {
        match (self.phase, written) {
            (ServerPhase::WritingCertificate(key), Ok(_)) => {
                next == self.at(ServerPhase::WritingKey) && action == ServiceAction::<
                    A,
                >::WriteFile(key)
            },
            (ServerPhase::WritingKey, Ok(_)) => {
                next == self.at(ServerPhase::BuildingConfig) && builds_server_config(action)
            },
            (ServerPhase::WritingCertificate(_), Err(e)) => {
                self.gives_up(TquicError::Io(e), next, action)
            },
            (ServerPhase::WritingKey, Err(e)) => self.gives_up(TquicError::Io(e), next, action),
            _ => next == self && action == ServiceAction::<A>::Wait,
        }
    }

    /// What follows a step of the QUIC library: the endpoint is opened, listens, and is asked for
    /// its address; then the server has an endpoint and runs.
    pub open spec fn moves_on_tried(
        self,
        tried: Result<(), String>,
        next: ServerModel<A>,
        action: ServiceAction<A>,
    ) -> bool {
        match (self.phase, tried) {
            (ServerPhase::BuildingConfig, Ok(_)) => {
                next == self.at(ServerPhase::OpeningEndpoint) && action == ServiceAction::<
                    A,
                >::OpenEndpoint
            },
            (ServerPhase::OpeningEndpoint, Ok(_)) => {
                next == self.at(ServerPhase::Listening) && action == ServiceAction::<A>::Listen(
                    self.addr,
                )
            },
            (ServerPhase::Listening, Ok(_)) => {
                next == self.at(ServerPhase::AskingAddress) && action == ServiceAction::<
                    A,
                >::AskLocalAddress
            },
            (ServerPhase::AskingAddress, Ok(_)) => {
                next == (ServerModel {
                    has_endpoint: true,
                    running: true,
                    phase: ServerPhase::Idle,
                    ..self
                }) && action == ServiceAction::<A>::Serve
            },
            (ServerPhase::BuildingConfig, Err(text))
            | (ServerPhase::OpeningEndpoint, Err(text))
            | (ServerPhase::Listening, Err(text))
            | (ServerPhase::AskingAddress, Err(text)) => {
                self.gives_up(TquicError::Tquic(text), next, action)
            },
            _ => next == self && action == ServiceAction::<A>::Wait,
        }
    }
}

impl<A: Copy> EnterpriseHttp3Server<A> {
    /// Begins to start the server, given what became of the making of a certificate.
    pub fn start_with(&mut self, made: Result<CertificateFiles, TquicError>) -> (action:
        ServiceAction<A>)
        ensures
            old(self)@.starts(made, final(self)@, action),
    {
        match made {
            Ok(files) => {
                self.phase = ServerPhase::WritingCertificate(files.key);
                ServiceAction::WriteFile(files.certificate)
            },
            Err(error) => {
                self.phase = ServerPhase::Idle;
                ServiceAction::Finish(Err(error))
            },
        }
    }

    fn take_phase(&mut self) -> (phase: ServerPhase)
        ensures
            phase == old(self)@.phase,
            final(self)@ == old(self)@.at(ServerPhase::Idle),
    {
        let mut phase = ServerPhase::Idle;
        std::mem::swap(&mut phase, &mut self.phase);
        phase
    }

    /// Goes on with the start after a file was written, or could not be.
    pub fn file_written(&mut self, written: Result<(), std::io::Error>) -> (action: ServiceAction<
        A,
    >)
        ensures
            old(self)@.moves_on_written(written, final(self)@, action),
    {
        let phase = self.take_phase();
        match (phase, written) {
            (ServerPhase::WritingCertificate(key), Ok(_)) => {
                self.phase = ServerPhase::WritingKey;
                ServiceAction::WriteFile(key)
            },
            (ServerPhase::WritingKey, Ok(_)) => {
                self.phase = ServerPhase::BuildingConfig;
                ServiceAction::BuildConfig(create_server_config())
            },
            (ServerPhase::WritingCertificate(_), Err(e)) => {
                ServiceAction::Finish(Err(TquicError::from(e)))
            },
            (ServerPhase::WritingKey, Err(e)) => ServiceAction::Finish(Err(TquicError::from(e))),
            (phase, _) => {
                self.phase = phase;
                ServiceAction::Wait
            },
        }
    }

    /// Goes on with the start after a step of the QUIC library succeeded, or failed as the text
    /// says.
    pub fn tried(&mut self, tried: Result<(), String>) -> (action: ServiceAction<A>)
        ensures
            old(self)@.moves_on_tried(tried, final(self)@, action),
    {
        let phase = self.take_phase();
        match (phase, tried) {
            (ServerPhase::BuildingConfig, Ok(_)) => {
                self.phase = ServerPhase::OpeningEndpoint;
                ServiceAction::OpenEndpoint
            },
            (ServerPhase::OpeningEndpoint, Ok(_)) => {
                self.phase = ServerPhase::Listening;
                ServiceAction::Listen(self.addr)
            },
            (ServerPhase::Listening, Ok(_)) => {
                self.phase = ServerPhase::AskingAddress;
                ServiceAction::AskLocalAddress
            },
            (ServerPhase::AskingAddress, Ok(_)) => {
                self.has_endpoint = true;
                self.running = true;
                ServiceAction::Serve
            },
            (ServerPhase::BuildingConfig, Err(text))
            | (ServerPhase::OpeningEndpoint, Err(text))
            | (ServerPhase::Listening, Err(text))
            | (ServerPhase::AskingAddress, Err(text)) => {
                ServiceAction::Finish(Err(TquicError::Tquic(text)))
            },
            (phase, _) => {
                self.phase = phase;
                ServiceAction::Wait
            },
        }
    }
}

impl<A: Copy> EnterpriseHttp3<A> for EnterpriseHttp3Server<A> {
    open spec fn running(&self) -> bool {
        self@.running
    }

    open spec fn address(&self) -> A {
        self@.addr
    }

    /// A server needs no endpoint before it starts: it can always be made.
    fn new(addr: A, endpoint: Result<(), String>) -> (service: Result<Self, TquicError>)
        ensures
            service matches Ok(s) && s@ == (ServerModel {
                addr,
                has_endpoint: false,
                running: false,
                phase: ServerPhase::Idle,
            }),
    {
        Ok(
            EnterpriseHttp3Server {
                addr,
                has_endpoint: false,
                running: false,
                phase: ServerPhase::Idle,
            },
        )
    }

    /// A start begins with the making of a temporary certificate.
    fn start(&mut self) -> (action: ServiceAction<A>)
        ensures
            exists|made: Result<CertificateFiles, TquicError>|
                crate::certificate::is_temp_certificate(made) && #[trigger] old(self)@.starts(
                    made,
                    final(self)@,
                    action,
                ),
    {
        let made = generate_temp_certificate();
        self.start_with(made)
    }

    /// A server that is stopped accepts no more connections; its endpoint stays.
    fn stop(&mut self) -> (actions: Vec<ServiceAction<A>>)
        ensures
            actions@.len() == 0,
            final(self)@ == (ServerModel { running: false, ..old(self)@ }),
    {
        self.running = false;
        Vec::new()
    }

    /// A server does not send requests.
    fn send_request(&self, request: Http3Request) -> (sending: Result<
        (SendState, SendAction),
        TquicError,
    >)
        ensures
            sending matches Err(TquicError::Config(text)) && text@ == "服务器不支持发送请求"@,
    {
        Err(TquicError::Config("服务器不支持发送请求".to_owned()))
    }

    fn local_addr(&self) -> (addr: Option<A>)
        ensures
            addr == Some(self@.addr),
    {
        Some(self.addr)
    }

    fn is_running(&self) -> (running: bool) {
        self.running
    }
}

/// A start of which no step fails: the certificate is written and then its key, the configuration
/// is made, the endpoint is opened, listens on the server's address, and is asked for the address;
/// then the server has an endpoint and runs. `steps` are the seven states that the server goes
/// through, and `actions` what each is entered with.
pub proof fn a_start_without_failure<A>(
    server: ServerModel<A>,
    files: CertificateFiles,
    steps: Seq<ServerModel<A>>,
    actions: Seq<ServiceAction<A>>,
)
    requires
        steps.len() == 7,
        actions.len() == 7,
        server.starts(Ok(files), steps[0], actions[0]),
        steps[0].moves_on_written(Ok(()), steps[1], actions[1]),
        steps[1].moves_on_written(Ok(()), steps[2], actions[2]),
        steps[2].moves_on_tried(Ok(()), steps[3], actions[3]),
        steps[3].moves_on_tried(Ok(()), steps[4], actions[4]),
        steps[4].moves_on_tried(Ok(()), steps[5], actions[5]),
        steps[5].moves_on_tried(Ok(()), steps[6], actions[6]),
    ensures
        actions[0] == ServiceAction::<A>::WriteFile(files.certificate),
        actions[1] == ServiceAction::<A>::WriteFile(files.key),
        builds_server_config(actions[2]),
        actions[3] == ServiceAction::<A>::OpenEndpoint,
        actions[4] == ServiceAction::<A>::Listen(server.addr),
        actions[5] == ServiceAction::<A>::AskLocalAddress,
        actions[6] == ServiceAction::<A>::Serve,
        steps[6] == (ServerModel {
            has_endpoint: true,
            running: true,
            phase: ServerPhase::Idle,
            ..server
        }),
{
}

/// A start that fails leaves the server as it was but for the phase: whether it runs and whether
/// it has an endpoint are untouched.
pub proof fn a_failed_start_changes_nothing<A>(
    server: ServerModel<A>,
    made: Result<CertificateFiles, TquicError>,
    written: Result<(), std::io::Error>,
    tried: Result<(), String>,
    next: ServerModel<A>,
    action: ServiceAction<A>,
)
    requires
        server.starts(made, next, action) || server.moves_on_written(written, next, action)
            || server.moves_on_tried(tried, next, action),
        action is Finish,
    ensures
        action->Finish_0 is Err,
        next == server.at(ServerPhase::Idle),
{
}

/// A server begins to run in one way only: as the last step of a start.
pub proof fn a_server_runs_only_after_its_start<A>(
    server: ServerModel<A>,
    made: Result<CertificateFiles, TquicError>,
    written: Result<(), std::io::Error>,
    tried: Result<(), String>,
    next: ServerModel<A>,
    action: ServiceAction<A>,
)
    requires
        server.starts(made, next, action) || server.moves_on_written(written, next, action)
            || server.moves_on_tried(tried, next, action),
        !server.running,
        next.running,
    ensures
        server.phase == ServerPhase::AskingAddress,
        tried is Ok,
        action == ServiceAction::<A>::Serve,
        next.has_endpoint,
{
}

} // verus!
