//! The failures that encoders, decoders and subscriptions report.

use vstd::prelude::*;
use vstd::string::StringExecFns;

use crate::messages::ResponseMessage;

verus! {

/// A failure of an encoder, a decoder or the transport.
#[derive(Debug, Clone)]
pub enum Error {
    /// The operation is not supported for this kind of stream.
    NotImplemented,
    /// An argument of a request was malformed.
    InvalidArgument(String),
    /// A field of a response could not be read as the expected type.
    Parse(usize, String, String),
    /// The connection could not be established.
    ConnectionFailed,
    /// The connection was severed.
    ConnectionReset,
    /// The request was cancelled.
    Cancelled,
    /// The client is shutting down.
    Shutdown,
    /// The stream has ended normally.
    EndOfStream,
    /// A message arrived whose shape the active decoder does not expect.
    UnexpectedResponse(ResponseMessage),
    /// The stream ended where more data was required.
    UnexpectedEndOfStream,
    /// The server reported an error: its code and its text.
    Message(i32, String),
    /// Any other failure, described in words.
    Simple(String),
}

impl Error {
    /// The words that describe the failure.
    pub open spec fn description_text(self) -> Seq<char> {
        match self {
            Error::NotImplemented => "not implemented"@,
            Error::InvalidArgument(reason) => "invalid argument: "@ + reason@,
            Error::Parse(_, _, reason) => "parse error: "@ + reason@,
            Error::ConnectionFailed => "connection failed"@,
            Error::ConnectionReset => "connection reset"@,
            Error::Cancelled => "cancelled"@,
            Error::Shutdown => "shutdown"@,
            Error::EndOfStream => "end of stream"@,
            Error::UnexpectedResponse(_) => "unexpected response"@,
            Error::UnexpectedEndOfStream => "unexpected end of stream"@,
            Error::Message(_, text) => text@,
            Error::Simple(text) => text@,
        }
    }

    /// A short description of the failure.
    pub fn description(&self) -> (text: String)
        ensures
            text@ == self.description_text(),
    {
        match self {
            Error::NotImplemented => String::from_str("not implemented"),
            Error::InvalidArgument(reason) => String::from_str("invalid argument: ").concat(
                reason.as_str(),
            ),
            Error::Parse(_, _, reason) => String::from_str("parse error: ").concat(reason.as_str()),
            Error::ConnectionFailed => String::from_str("connection failed"),
            Error::ConnectionReset => String::from_str("connection reset"),
            Error::Cancelled => String::from_str("cancelled"),
            Error::Shutdown => String::from_str("shutdown"),
            Error::EndOfStream => String::from_str("end of stream"),
            Error::UnexpectedResponse(_) => String::from_str("unexpected response"),
            Error::UnexpectedEndOfStream => String::from_str("unexpected end of stream"),
            Error::Message(_, text) => text.clone(),
            Error::Simple(text) => text.clone(),
        }
    }
}

} // verus!
