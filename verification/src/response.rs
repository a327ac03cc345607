//! What the service answers: a status, a content type and a body.

use vstd::prelude::*;

verus! {

/// The status of an answer.
#[derive(Debug, Clone, Copy, PartialEq, Eq, Structural)]
pub enum Status {
    /// The request was served.
    Success,
    /// The request failed inside the service.
    InternalServerError,
}

impl Status {
    /// The status code on the wire.
    pub fn code(&self) -> (code: u16)
        ensures
            code == match self {
                Status::Success => 200u16,
                Status::InternalServerError => 500u16,
            },
    {
        match self {
            Status::Success => 200,
            Status::InternalServerError => 500,
        }
    }
}

/// The content type of an answer.
#[derive(Debug, Clone, Copy, PartialEq, Eq, Structural)]
pub enum ContentType {
    /// Plain text.
    Plain,
}

/// One answer of the service.
#[derive(Debug, PartialEq, Eq)]
pub struct Response {
    pub status: Status,
    pub content_type: ContentType,
    pub body: String,
}

/// The answer to a request that was served: `message` as plain text.
pub fn ok(message: String) -> (response: Response)
    ensures
        response.status == Status::Success,
        response.content_type == ContentType::Plain,
        response.body == message,
{
    Response { status: Status::Success, content_type: ContentType::Plain, body: message }
}

/// The answer to a request that failed: `message` as plain text.
pub fn internal_server_error(message: String) -> (response: Response)
    ensures
        response.status == Status::InternalServerError,
        response.content_type == ContentType::Plain,
        response.body == message,
{
    Response { status: Status::InternalServerError, content_type: ContentType::Plain, body: message }
}

} // verus!
