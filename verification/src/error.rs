//! What can go wrong in the service.

use vstd::prelude::*;

use crate::text::join;

verus! {

/// The error of the standard library's input and output.
#[verifier::external_type_specification]
#[verifier::external_body]
pub struct ExIoError(std::io::Error);

/// What can go wrong in the service.
#[derive(Debug)]
pub enum TquicError {
    /// The QUIC library reported an error; this is its text.
    Tquic(String),
    /// Reading or writing failed.
    Io(std::io::Error),
    /// The service is not set up for what was asked of it.
    Config(String),
    /// A certificate could not be made.
    Certificate(String),
    /// A connection failed.
    Connection(String),
    /// An HTTP/3 operation failed.
    Http3(String),
}

impl From<std::io::Error> for TquicError {
    fn from(e: std::io::Error) -> (error: TquicError) {
        TquicError::Io(e)
    }
}

impl vstd::std_specs::convert::FromSpecImpl<std::io::Error> for TquicError {
    open spec fn obeys_from_spec() -> bool {
        true
    }

    open spec fn from_spec(e: std::io::Error) -> TquicError {
        TquicError::Io(e)
    }
}

impl TquicError {
    /// `text` is the text of the error: what kind of error it is, and then what the error holds.
    pub open spec fn has_text(&self, text: Seq<char>) -> bool {
        match self {
            TquicError::Tquic(s) => text == "TQUIC错误: "@ + s@,
            TquicError::Io(e) => exists|s: String| #[trigger]
                vstd::string::to_string_from_display_ensures::<std::io::Error>(e, s) && text
                    == "IO错误: "@ + s@,
            TquicError::Config(s) => text == "配置错误: "@ + s@,
            TquicError::Certificate(s) => text == "证书错误: "@ + s@,
            TquicError::Connection(s) => text == "连接错误: "@ + s@,
            TquicError::Http3(s) => text == "HTTP/3错误: "@ + s@,
        }
    }

    /// The text of the error.
    pub fn to_string(&self) -> (text: String)
        ensures
            self.has_text(text@),
    {
        match self {
            TquicError::Tquic(s) => join("TQUIC错误: ", s.as_str()),
            TquicError::Io(e) => {
                let s = e.to_string();
                join("IO错误: ", s.as_str())
            },
            TquicError::Config(s) => join("配置错误: ", s.as_str()),
            TquicError::Certificate(s) => join("证书错误: ", s.as_str()),
            TquicError::Connection(s) => join("连接错误: ", s.as_str()),
            TquicError::Http3(s) => join("HTTP/3错误: ", s.as_str()),
        }
    }
}

} // verus!
