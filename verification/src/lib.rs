//! Verified core of an HTTP/3 service.
//!
//! The service decides and computes here; whoever drives it does the input and output. Requests
//! and responses are built in [`message`] and take the form in which they cross a connection in
//! [`wire`]. What a server or a client does is given as steps: a function takes the state and what
//! was reported, and returns the next state and what to do next. So it is with a connection on
//! the server's side ([`connection`]), the accepting of connections ([`accepting`]), the start and
//! stop of a [`server`] and of a [`client`], and the [`sending`] of a request. [`certificate`] and
//! [`config`] say what the two sides are set up with, and [`window`] what the application shows.
//!
//! What callers may rely on across these modules stands in [`promises`].

pub mod accepting;
pub mod body;
pub mod certificate;
pub mod clock;
pub mod client;
pub mod config;
pub mod connection;
pub mod error;
pub mod handler;
pub mod headers;
pub mod message;
pub mod promises;
pub mod sending;
pub mod server;
pub mod service;
pub mod text;
pub mod window;
pub mod wire;
