//! The request pipeline: what is sent, what comes back, and how the
//! out-of-band error headers are read.
use vstd::prelude::*;
use crate::json::{JsonValue, JsonModel};
use crate::wire::DecodeError;
use crate::json::{decimal, decimal_text};

verus! {

/// The message of a protocol error whose message header is missing.
pub const UNKNOWN_PROTOCOL_ERROR: &'static str = "unknown protocol error";

/// Why a call failed.
#[derive(Debug, PartialEq, Eq)]
pub enum PocketError {
    /// The HTTP exchange itself failed.
    Http(String),
    /// The response body did not decode.
    Json(DecodeError),
    /// A request could not be put into its wire form.
    Format(String),
    /// The service reported an error in its response headers.
    Proto(u16, String),
    /// Completing authorization needs the code of a first, successful step.
    MissingCode,
    /// The call needs an authorized session.
    MissingToken,
    /// The session is authorized already; authorizing again needs a new client.
    AlreadyAuthorized,
}

pub type PocketResult<T> = Result<T, PocketError>;

/// A request to send: an endpoint and a JSON body, posted with a JSON
/// content type and a JSON `X-Accept` header.
pub struct ApiRequest {
    pub endpoint: &'static str,
    pub body: JsonValue,
}

/// What came back: the two error headers, and the body read as JSON.
pub struct Reply {
    pub error_code: Option<u16>,
    pub error_message: Option<String>,
    pub body: Result<JsonValue, PocketError>,
}

/// `r` is the protocol error with `code` and `message`.
pub open spec fn is_proto(r: PocketError, code: u16, message: Seq<char>) -> bool {
    r matches PocketError::Proto(c, m) && c == code && m@ == message
}

/// The verdict of the error headers: a protocol error where either is
/// present, in this precedence; `Ok` where neither is.
pub open spec fn header_verdict(code: Option<u16>, message: Option<Seq<char>>, r: Result<(), PocketError>) -> bool {
    match (code, message) {
        (Some(c), Some(m)) => r matches Err(e) && is_proto(e, c, m),
        (Some(c), None) => r matches Err(e) && is_proto(e, c, UNKNOWN_PROTOCOL_ERROR@),
        (None, Some(m)) => r matches Err(e) && is_proto(e, 0, m),
        (None, None) => r is Ok,
    }
}

pub open spec fn opt_view(s: Option<String>) -> Option<Seq<char>> {
    match s {
        Some(t) => Some(t@),
        None => None,
    }
}

/// Reads the error headers of a response.
pub fn check_headers(error_code: Option<u16>, error_message: Option<&str>) -> (r: Result<(), PocketError>)
    ensures
        header_verdict(
            error_code,
            match error_message {
                Some(m) => Some(m@),
                None => None,
            },
            r,
        ),
{
    match (error_code, error_message) {
        (Some(c), Some(m)) => Err(PocketError::Proto(c, m.to_owned())),
        (Some(c), None) => Err(PocketError::Proto(c, UNKNOWN_PROTOCOL_ERROR.to_owned())),
        (None, Some(m)) => Err(PocketError::Proto(0, m.to_owned())),
        (None, None) => Ok(()),
    }
}

/// The JSON body of a reply that reports no failure.
pub open spec fn reply_json(reply: Reply) -> Option<JsonModel> {
    if reply.error_code is None && reply.error_message is None && reply.body is Ok {
        Some(reply.body->Ok_0@)
    } else {
        None
    }
}

/// `r` is the failure that `reply` reports: the error headers first, then a
/// body that could not be read.
pub open spec fn reply_failure<T>(reply: Reply, r: PocketResult<T>) -> bool {
    if reply.error_code is Some || reply.error_message is Some {
        r matches Err(e) && header_verdict(reply.error_code, opt_view(reply.error_message), Err(e))
    } else {
        reply.body matches Err(be) && r == Err::<T, PocketError>(be)
    }
}

impl Reply {
    /// The JSON body, or the failure the reply reports: the error headers
    /// take precedence over the body.
    pub fn json(self) -> (r: PocketResult<JsonValue>)
        ensures
            match reply_json(self) {
                Some(v) => r matches Ok(b) && b@ == v,
                None => reply_failure(self, r),
            },
    {
        let verdict = match &self.error_message {
            Some(m) => check_headers(self.error_code, Some(m.as_str())),
            None => check_headers(self.error_code, None),
        };
        match verdict {
            Err(e) => Err(e),
            Ok(()) => self.body,
        }
    }
}

pub open spec fn description_text(e: PocketError) -> Seq<char> {
    match e {
        PocketError::Http(_) => "HTTP error"@,
        PocketError::Json(_) => "JSON decoding error"@,
        PocketError::Format(_) => "JSON encoding error"@,
        PocketError::Proto(_, _) => "protocol error"@,
        PocketError::MissingCode => "authorization was not started"@,
        PocketError::MissingToken => "not authorized"@,
        PocketError::AlreadyAuthorized => "already authorized"@,
    }
}

/// The text shown for an error: a protocol error reads `message (code n)`.
pub open spec fn message_text(e: PocketError) -> Seq<char> {
    match e {
        PocketError::Http(s) => s@,
        PocketError::Format(s) => s@,
        PocketError::Proto(c, m) => m@ + " (code "@ + decimal_text(c as nat) + ")"@,
        _ => description_text(e),
    }
}

impl PocketError {
    /// A short description of the kind of error.
    pub fn description(&self) -> (r: &'static str)
        ensures
            r@ == description_text(*self),
    {
        match self {
            PocketError::Http(_) => "HTTP error",
            PocketError::Json(_) => "JSON decoding error",
            PocketError::Format(_) => "JSON encoding error",
            PocketError::Proto(_, _) => "protocol error",
            PocketError::MissingCode => "authorization was not started",
            PocketError::MissingToken => "not authorized",
            PocketError::AlreadyAuthorized => "already authorized",
        }
    }

    /// The text shown for this error.
    pub fn message(&self) -> (r: String)
        ensures
            r@ == message_text(*self),
    {
        match self {
            PocketError::Http(s) => s.clone(),
            PocketError::Format(s) => s.clone(),
            PocketError::Proto(c, m) => {
                let mut out = m.clone();
                out.append(" (code ");
                let digits = decimal(*c as u64);
                out.append(digits.as_str());
                out.append(")");
                out
            },
            _ => self.description().to_owned(),
        }
    }
}

} // verus!
