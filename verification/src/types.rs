//! The values that travel through the gateway: requests, responses and the
//! errors that refuse a request before any backend is contacted.

use vstd::prelude::*;
use vstd::string::StringExecFns;

verus! {

/// Who speaks in a chat message.
#[derive(Debug, Clone, Copy, PartialEq, Eq, Structural)]
pub enum ChatRole {
    User,
    Assistant,
    System,
}

/// One message of a chat.
#[derive(Debug, Clone)]
pub struct TextMessage {
    pub role: ChatRole,
    pub content: String,
}

/// A request for a response to one input text.
#[derive(Debug, Clone)]
pub struct ResponseRequest {
    /// The model that the caller asks for. It must stay unset: the router
    /// chooses the model.
    pub model: Option<String>,
    pub input: String,
}

/// A request for the completion of a chat.
#[derive(Debug, Clone)]
pub struct CompletionRequest {
    /// The model that the caller asks for. It must stay unset: the router
    /// chooses the model.
    pub model: Option<String>,
    pub messages: Vec<TextMessage>,
}

/// How far the work on a response has come.
#[derive(Debug, Clone, Copy, PartialEq, Eq, Structural)]
pub enum Status {
    InProgress,
    Completed,
    Incomplete,
}

/// One message in the output of a response.
#[derive(Debug, Clone)]
pub struct OutputMessage {
    pub id: String,
    pub role: ChatRole,
    pub status: Status,
    pub text: String,
}

/// The answer to a `ResponseRequest`.
#[derive(Debug, Clone)]
pub struct Response {
    pub id: String,
    pub object: String,
    pub model: String,
    pub created_at: u64,
    pub status: Status,
    pub output: Vec<OutputMessage>,
}

/// One alternative in the answer to a `CompletionRequest`.
#[derive(Debug, Clone)]
pub struct ChatChoice {
    pub index: u32,
    pub message: TextMessage,
}

/// The answer to a `CompletionRequest`.
#[derive(Debug, Clone)]
pub struct ChatCompletion {
    pub id: String,
    pub object: String,
    pub model: String,
    pub created: u32,
    pub choices: Vec<ChatChoice>,
}

/// Why a request was refused before any backend was contacted. Both reasons
/// are faults of the request's arguments.
#[derive(Debug, Clone)]
pub enum ApiError {
    /// The request names a model, though choosing it is the router's task.
    ModelSpecified,
    /// The backend family of this name does not offer the responses endpoint.
    ResponsesUnsupported { provider: String },
}

impl ApiError {
    /// The text of the error's message.
    pub open spec fn message_text(self) -> Seq<char> {
        match self {
            ApiError::ModelSpecified => "Model must be specified in the client.Config"@,
            ApiError::ResponsesUnsupported { provider } => "Provider '"@ + provider@
                + "' doesn't support Responses endpoint"@,
        }
    }

    /// The error's message for the caller.
    pub fn message(&self) -> (text: String)
        ensures
            text@ == self.message_text(),
    {
        match self {
            ApiError::ModelSpecified => String::from_str(
                "Model must be specified in the client.Config",
            ),
            ApiError::ResponsesUnsupported { provider } => {
                let text = String::from_str("Provider '");
                let text = text.concat(provider.as_str());
                text.concat("' doesn't support Responses endpoint")
            },
        }
    }
}

/// Where a request that a provider has admitted is to be sent.
#[derive(Debug, Clone)]
pub struct Endpoint {
    pub base_url: String,
    pub api_key: String,
    pub model: String,
}

/// What is to be done with a request that a provider has admitted.
#[derive(Debug, Clone)]
pub enum Dispatch<R> {
    /// The provider has answered by itself.
    Answered(R),
    /// The request is to be sent to this backend, whose answer or error goes
    /// back to the caller unchanged.
    Forward(Endpoint),
}

} // verus!
