//! The ways a request fails, and the fixed response of each.

use vstd::prelude::*;

verus! {

/// Why a request is turned away.
#[derive(Clone, Copy, Debug, PartialEq, Eq, Structural)]
pub enum RequestError {
    /// No request line, a request line that does not have exactly three
    /// fields, a third field that does not name the protocol, or an empty
    /// method or path.
    MalformedRequest,
    /// The protocol is named, but in a version that the server does not speak.
    UnsupportedVersion,
    /// A path other than the root, or a method without a handler.
    NotFound,
}

impl RequestError {
    /// The whole response that reports the failure: a status line and a blank
    /// line, with neither headers nor body.
    pub open spec fn response_text(self) -> Seq<char> {
        match self {
            RequestError::MalformedRequest => "HTTP/1.1 400 BAD REQUEST\r\n\r\n"@,
            RequestError::UnsupportedVersion => "HTTP/1.1 505 HTTP VERSION NOT SUPPORTED\r\n\r\n"@,
            RequestError::NotFound => "HTTP/1.1 404 NOT FOUND\r\n\r\n"@,
        }
    }

    /// Builds the response that reports the failure.
    pub fn response(self) -> (response: String)
        ensures
            response@ == self.response_text(),
    {
        match self {
            RequestError::MalformedRequest => String::from_str("HTTP/1.1 400 BAD REQUEST\r\n\r\n"),
            RequestError::UnsupportedVersion => String::from_str(
                "HTTP/1.1 505 HTTP VERSION NOT SUPPORTED\r\n\r\n",
            ),
            RequestError::NotFound => String::from_str("HTTP/1.1 404 NOT FOUND\r\n\r\n"),
        }
    }
}

} // verus!
