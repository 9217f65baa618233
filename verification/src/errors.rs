//! The ways in which a request fails, and the status and message that each
//! is answered with.

use crate::claude::ProviderError;
use vstd::prelude::*;

verus! {

/// What is wrong with the body of a request.
#[derive(Debug, Clone, Copy, PartialEq, Eq, Structural)]
pub enum BadInput {
    /// The body is not the JSON that the endpoint takes, or reports a step
    /// that this machine cannot count past.
    MalformedJson,
    /// The chat message is empty once trimmed.
    EmptyMessage,
}

/// Why a request was not served.
#[derive(Debug, Clone, Copy, PartialEq, Eq, Structural)]
pub enum ApiError {
    /// The topic id is not a known one.
    InvalidTopic,
    /// The body of the request cannot be used.
    BadInput(BadInput),
    /// The provider gave no reply.
    Provider(ProviderError),
    /// An event came in that the request was not waiting for.
    OutOfTurn,
}

/// What an unknown topic is answered with.
pub const TOPIC_NOT_FOUND: &'static str = "Topic not found";

/// What a body that cannot be read is answered with.
pub const INVALID_JSON: &'static str = "Invalid JSON input";

/// What a blank chat message is answered with.
pub const MESSAGE_EMPTY: &'static str = "Message cannot be empty";

/// What a failure of the provider is answered with.
pub const NO_RESPONSE: &'static str = "Failed to generate response";

/// What an event out of turn is answered with.
pub const UNEXPECTED_EVENT: &'static str = "Unexpected event";

impl ApiError {
    /// The HTTP status that the failure is answered with.
    pub open spec fn status_code(self) -> u16 {
        match self {
            ApiError::InvalidTopic => 404,
            ApiError::BadInput(_) => 400,
            ApiError::Provider(_) => 500,
            ApiError::OutOfTurn => 500,
        }
    }

    /// The message that the failure is answered with. A failure of the
    /// provider is answered in general terms, whatever its cause.
    pub open spec fn message_text(self) -> Seq<char> {
        match self {
            ApiError::InvalidTopic => TOPIC_NOT_FOUND@,
            ApiError::BadInput(BadInput::MalformedJson) => INVALID_JSON@,
            ApiError::BadInput(BadInput::EmptyMessage) => MESSAGE_EMPTY@,
            ApiError::Provider(_) => NO_RESPONSE@,
            ApiError::OutOfTurn => UNEXPECTED_EVENT@,
        }
    }

    /// The HTTP status that the failure is answered with.
    pub fn status(&self) -> (code: u16)
        ensures
            code == self.status_code(),
    {
        match self {
            ApiError::InvalidTopic => 404,
            ApiError::BadInput(_) => 400,
            ApiError::Provider(_) => 500,
            ApiError::OutOfTurn => 500,
        }
    }

    /// The message that the failure is answered with.
    pub fn message(&self) -> (text: String)
        ensures
            text@ == self.message_text(),
    {
        match self {
            ApiError::InvalidTopic => TOPIC_NOT_FOUND.to_owned(),
            ApiError::BadInput(BadInput::MalformedJson) => INVALID_JSON.to_owned(),
            ApiError::BadInput(BadInput::EmptyMessage) => MESSAGE_EMPTY.to_owned(),
            ApiError::Provider(_) => NO_RESPONSE.to_owned(),
            ApiError::OutOfTurn => UNEXPECTED_EVENT.to_owned(),
        }
    }
}

} // verus!
