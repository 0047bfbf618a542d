//! The failures that a request or its deferred work can end in.

use vstd::prelude::*;
use vstd::string::*;

verus! {

pub const MALFORMED_HEADER: &'static str = "invalid `Authorization` header";

pub const INVALID_TOKEN: &'static str = "invalid token";

pub const DECODE_ERROR: &'static str = "invalid form";

pub const CAPTIONING_API_ERROR: &'static str = "captioning refused: ";

pub const CAPTIONING_TRANSPORT_ERROR: &'static str = "captioning service out of reach";

pub const CALLBACK_DELIVERY_ERROR: &'static str = "reply not delivered";

/// Every way in which handling one invocation can fail.
#[derive(Debug, PartialEq, Eq)]
pub enum Error {
    /// The `Authorization` value has the wrong scheme or a credential that is not text.
    MalformedHeader,
    /// The credential is well formed but is not one of the accepted tokens.
    InvalidToken,
    /// A required form field is absent, repeated, or not of the expected shape.
    DecodeError,
    /// The captioning service answered with a failure of its own; the message is the service's.
    CaptioningApiError(String),
    /// The captioning service could not be reached, or its answer could not be read.
    CaptioningTransportError,
    /// The reply could not be delivered to the callback URL.
    CallbackDeliveryError,
}

/// The HTTP status that answers a request which failed with `e`.
pub open spec fn status_of(e: Error) -> int {
    match e {
        Error::MalformedHeader => 400,
        Error::InvalidToken => 401,
        Error::DecodeError => 400,
        _ => 500,
    }
}

/// What `e` says of itself in a log.
pub open spec fn message_of(e: Error) -> Seq<char> {
    match e {
        Error::MalformedHeader => MALFORMED_HEADER@,
        Error::InvalidToken => INVALID_TOKEN@,
        Error::DecodeError => DECODE_ERROR@,
        Error::CaptioningApiError(message) => CAPTIONING_API_ERROR@ + message@,
        Error::CaptioningTransportError => CAPTIONING_TRANSPORT_ERROR@,
        Error::CallbackDeliveryError => CALLBACK_DELIVERY_ERROR@,
    }
}

impl Error {
    /// What this error says of itself in a log.
    pub fn message(&self) -> (text: String)
        ensures
            text@ == message_of(*self),
    {
        match self {
            Error::MalformedHeader => String::from_str(MALFORMED_HEADER),
            Error::InvalidToken => String::from_str(INVALID_TOKEN),
            Error::DecodeError => String::from_str(DECODE_ERROR),
            Error::CaptioningApiError(message) => {
                let mut text = String::from_str(CAPTIONING_API_ERROR);
                text.append(message.as_str());
                text
            },
            Error::CaptioningTransportError => String::from_str(CAPTIONING_TRANSPORT_ERROR),
            Error::CallbackDeliveryError => String::from_str(CALLBACK_DELIVERY_ERROR),
        }
    }

    /// The HTTP status that answers a request which failed with this error.
    pub fn status(&self) -> (code: u16)
        ensures
            code == status_of(*self),
    {
        match self {
            Error::MalformedHeader => 400,
            Error::InvalidToken => 401,
            Error::DecodeError => 400,
            _ => 500,
        }
    }
}

} // verus!
