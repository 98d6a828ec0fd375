//! What servers and clients have in common.

use vstd::prelude::*;

use crate::certificate::OutputFile;
use crate::config::TransportConfig;
use crate::error::TquicError;
use crate::handler::Notice;
use crate::message::Http3Request;
use crate::sending::{SendAction, SendState};

verus! {

/// What the driver of a service is to do next while the service starts or stops. `A` is the type
/// of network addresses.
#[derive(Debug)]
pub enum ServiceAction<A> {
    /// Write a file; report the outcome by `file_written`.
    WriteFile(OutputFile),
    /// Make a QUIC configuration; report the outcome by `tried`.
    BuildConfig(TransportConfig),
    /// Open a QUIC endpoint with the configuration; report the outcome by `tried`.
    OpenEndpoint,
    /// Listen on the address; report the outcome by `tried`.
    Listen(A),
    /// Look up the address that is listened on; report the outcome by `tried`.
    AskLocalAddress,
    /// Start to accept connections; the service has started.
    Serve,
    /// Begin to connect to the server of that name at the address; report the outcome by `tried`.
    Connect {
        /// The address of the server.
        addr: A,
        /// The name of the server.
        server_name: String,
    },
    /// Wait until the connection is there; report the outcome by `tried`.
    AwaitConnection,
    /// Look up the address of the other side; report the outcome by `tried`.
    AskPeerAddress,
    /// Tell the handler; where the service starts, report it by `told`.
    Notify(Notice),
    /// Close the connection.
    CloseConnection {
        /// Whether the code is one of the application.
        app: bool,
        /// The code that the other side is given.
        code: u64,
        /// The reason that the other side is given.
        reason: Vec<u8>,
    },
    /// Return this result; there is nothing more to do.
    Finish(Result<(), TquicError>),
    /// The report was not one that was waited for: nothing has changed.
    Wait,
}

/// An HTTP/3 service: a server or a client.
pub trait EnterpriseHttp3<A>: Sized {
    /// The service has been started and has not been stopped since.
    spec fn running(&self) -> bool;

    /// The address that the service was made with.
    spec fn address(&self) -> A;

    /// Makes a service for an address. It is not running. `endpoint` is the outcome of opening a
    /// QUIC endpoint, where the service needs one from the first.
    fn new(addr: A, endpoint: Result<(), String>) -> (service: Result<Self, TquicError>)
        ensures
            service matches Ok(s) ==> s.address() == addr && !s.running(),
    ;

    /// Begins to start the service: gives the first thing to do. Until all has been done the
    /// service is no more running than it was.
    fn start(&mut self) -> (action: ServiceAction<A>)
        ensures
            final(self).address() == old(self).address(),
            final(self).running() == old(self).running(),
    ;

    /// Stops the service: gives what is left to do, in order.
    fn stop(&mut self) -> (actions: Vec<ServiceAction<A>>)
        ensures
            final(self).address() == old(self).address(),
            !final(self).running(),
    ;

    /// Begins to send a request: gives the first thing to do.
    fn send_request(&self, request: Http3Request) -> (sending: Result<
        (SendState, SendAction),
        TquicError,
    >);

    /// The address that the service listens on, if it listens.
    fn local_addr(&self) -> (addr: Option<A>)
        ensures
            addr matches Some(a) ==> a == self.address(),
    ;

    /// Tells whether the service is running.
    fn is_running(&self) -> (running: bool)
        ensures
            running == self.running(),
    ;
}

} // verus!
