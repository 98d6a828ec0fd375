//! What an application does with the events of the service.

use vstd::prelude::*;

use crate::message::{Http3Request, Http3Response};

verus! {

/// What an application does with the events of the service.
pub trait Http3EventHandler: Send + Sync {
    /// Answers a request.
    fn on_request(&self, request: Http3Request) -> Http3Response;

    /// A connection was established.
    fn on_connection_established(&self);

    /// A connection was closed.
    fn on_connection_closed(&self);

    /// Something went wrong; the text says what.
    fn on_error(&self, error: String);

    /// A response came in. A server gets none, and a client may pass over it.
    fn on_response(&self, response: Http3Response) {
    }
}

/// An event that an application is told of.
#[derive(Debug)]
pub enum Notice {
    /// A connection was established.
    Established,
    /// A connection was closed.
    Closed,
    /// Something went wrong; the text says what.
    Error(String),
}

/// The handler has been told of the event.
pub open spec fn was_told<H: Http3EventHandler + ?Sized>(handler: &H, notice: Notice) -> bool {
    match notice {
        Notice::Established => call_ensures(H::on_connection_established, (handler,), ()),
        Notice::Closed => call_ensures(H::on_connection_closed, (handler,), ()),
        Notice::Error(text) => call_ensures(H::on_error, (handler, text), ()),
    }
}

/// Tells a handler of an event.
pub fn tell<H: Http3EventHandler + ?Sized>(handler: &H, notice: Notice)
    ensures
        was_told(handler, notice),
{
    match notice {
        Notice::Established => handler.on_connection_established(),
        Notice::Closed => handler.on_connection_closed(),
        Notice::Error(text) => handler.on_error(text),
    }
}

} // verus!
