//! The failures of a request, and what the caller is told of each.

use crate::calendar::now_utc;
use crate::resources::account::KretaErrorResponse;
use vstd::prelude::*;

verus! {

/// What the caller is told of a failure.
#[derive(Debug)]
pub struct ErrorResponse {
    pub error_code: u32,
    pub title: String,
    pub message: String,
    pub time: String,
}

/// A failed request. The three kinds that the transport or the reading of a
/// body raises carry the text of what was raised.
#[derive(Debug)]
pub enum KretaError {
    /// The body of the answer was not the expected record.
    KretaBadResponse(String),
    /// The request could not be sent or did not complete.
    KretaRequestSendFailed(String),
    /// The answer could not be parsed.
    ParseError(String),
    /// The upstream service answered with an error of its own.
    ErrorResponse(KretaErrorResponse),
}

/// The answer to a failed request: the HTTP status and the body.
#[derive(Debug)]
pub struct ErrorReply {
    pub status: u16,
    pub body: ErrorResponse,
}

impl ErrorResponse {
    /// The response with the given time.
    pub fn stamped(error_code: u32, title: String, message: String, time: String) -> (r:
        ErrorResponse)
        ensures
            r.error_code == error_code,
            r.title == title,
            r.message == message,
            r.time == time,
    {
        ErrorResponse { error_code, title, message, time }
    }

    /// The response with the time of the system clock.
    pub fn from_message(error_code: u32, title: String, message: String) -> (r: ErrorResponse)
        ensures
            r.error_code == error_code,
            r.title == title,
            r.message == message,
    {
        let now = now_utc();
        ErrorResponse::stamped(error_code, title, message, now.stamp)
    }
}

/// The message of an error of the upstream service's own.
pub open spec fn upstream_error_message(response: KretaErrorResponse) -> Seq<char> {
    "error_title="@ + response.error@ + ";error_message="@ + response.error_description@
        + ";error_code="@ + response.error_code@
}

impl KretaError {
    /// The HTTP status of the answer.
    pub open spec fn status(self) -> int {
        match self {
            KretaError::KretaBadResponse(_) => 500,
            KretaError::KretaRequestSendFailed(_) => 500,
            KretaError::ParseError(_) => 500,
            KretaError::ErrorResponse(_) => 400,
        }
    }

    /// The number of the kind of failure.
    pub open spec fn error_code(self) -> int {
        match self {
            KretaError::KretaBadResponse(_) => 21,
            KretaError::KretaRequestSendFailed(_) => 20,
            KretaError::ParseError(_) => 22,
            KretaError::ErrorResponse(_) => 22,
        }
    }

    /// The title of the kind of failure.
    pub open spec fn title(self) -> Seq<char> {
        match self {
            KretaError::KretaBadResponse(_) => "Unrecognisable response from kreta server"@,
            KretaError::KretaRequestSendFailed(_) => "Request failed"@,
            KretaError::ParseError(_) => "Parsing response failed"@,
            KretaError::ErrorResponse(_) => "Kreta error response"@,
        }
    }

    /// The message: what was raised, or what the upstream service said.
    pub open spec fn message(self) -> Seq<char> {
        match self {
            KretaError::KretaBadResponse(raised) => raised@,
            KretaError::KretaRequestSendFailed(raised) => raised@,
            KretaError::ParseError(raised) => raised@,
            KretaError::ErrorResponse(response) => upstream_error_message(response),
        }
    }

    /// The kind of failure in a sentence.
    pub open spec fn description(self) -> Seq<char> {
        match self {
            KretaError::KretaBadResponse(_) => "Kreta invalid response!"@,
            KretaError::KretaRequestSendFailed(_) => "Invalid access token!"@,
            KretaError::ParseError(_) => "Response couldn't be parsed!"@,
            KretaError::ErrorResponse(_) => "Kreta responses with error!"@,
        }
    }

    fn status_code(&self) -> (r: u16)
        ensures
            r == self.status(),
    {
        match self {
            KretaError::ErrorResponse(_) => 400,
            _ => 500,
        }
    }

    fn code(&self) -> (r: u32)
        ensures
            r == self.error_code(),
    {
        match self {
            KretaError::KretaBadResponse(_) => 21,
            KretaError::KretaRequestSendFailed(_) => 20,
            KretaError::ParseError(_) => 22,
            KretaError::ErrorResponse(_) => 22,
        }
    }

    fn title_text(&self) -> (r: String)
        ensures
            r@ == self.title(),
    {
        match self {
            KretaError::KretaBadResponse(_) => String::from_str(
                "Unrecognisable response from kreta server",
            ),
            KretaError::KretaRequestSendFailed(_) => String::from_str("Request failed"),
            KretaError::ParseError(_) => String::from_str("Parsing response failed"),
            KretaError::ErrorResponse(_) => String::from_str("Kreta error response"),
        }
    }

    fn message_text(&self) -> (r: String)
        ensures
            r@ == self.message(),
    {
        match self {
            KretaError::KretaBadResponse(raised) => raised.clone(),
            KretaError::KretaRequestSendFailed(raised) => raised.clone(),
            KretaError::ParseError(raised) => raised.clone(),
            KretaError::ErrorResponse(response) => {
                let mut text = String::from_str("error_title=");
                text.append(response.error.as_str());
                text.append(";error_message=");
                text.append(response.error_description.as_str());
                text.append(";error_code=");
                text.append(response.error_code.as_str());
                text
            },
        }
    }

    /// The kind of failure in a sentence.
    pub fn to_string(&self) -> (r: String)
        ensures
            r@ == self.description(),
    {
        match self {
            KretaError::KretaBadResponse(_) => String::from_str("Kreta invalid response!"),
            KretaError::KretaRequestSendFailed(_) => String::from_str("Invalid access token!"),
            KretaError::ParseError(_) => String::from_str("Response couldn't be parsed!"),
            KretaError::ErrorResponse(_) => String::from_str("Kreta responses with error!"),
        }
    }

    /// The answer to the failed request, with the given time in its body.
    pub fn error_response_at(&self, time: String) -> (r: ErrorReply)
        ensures
            r.status == self.status(),
            r.body.error_code == self.error_code(),
            r.body.title@ == self.title(),
            r.body.message@ == self.message(),
            r.body.time == time,
    {
        ErrorReply {
            status: self.status_code(),
            body: ErrorResponse::stamped(
                self.code(),
                self.title_text(),
                self.message_text(),
                time,
            ),
        }
    }

    /// The answer to the failed request, with the time of the system clock
    /// in its body.
    pub fn error_response(&self) -> (r: ErrorReply)
        ensures
            r.status == self.status(),
            r.body.error_code == self.error_code(),
            r.body.title@ == self.title(),
            r.body.message@ == self.message(),
    {
        ErrorReply {
            status: self.status_code(),
            body: ErrorResponse::from_message(
                self.code(),
                self.title_text(),
                self.message_text(),
            ),
        }
    }
}

} // verus!
