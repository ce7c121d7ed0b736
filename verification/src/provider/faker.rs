//! A provider that answers by itself, for trying the gateway out without a
//! backend.

use crate::config::ModelConfig;
use crate::provider::provider::{
    validate_completion_request, validate_responses_request, Provider,
};
use crate::types::{
    ApiError, ChatChoice, ChatCompletion, ChatRole, CompletionRequest, Dispatch, OutputMessage,
    Response, ResponseRequest, Status, TextMessage,
};
use vstd::prelude::*;
use vstd::string::StringExecFns;

verus! {

/// The time stamp of every answer of the fake provider, in seconds.
pub const FAKE_CREATED_AT: u32 = 1_600_000_000;

/// A provider that answers every admitted request with the same text.
pub struct FakerProvider {
    model: String,
}

impl View for FakerProvider {
    type V = Seq<char>;

    /// The identifier of the model that the provider stands for.
    closed spec fn view(&self) -> Seq<char> {
        self.model@
    }
}

/// `response` is the fake provider's answer for the model `model`.
pub open spec fn is_fake_response(response: Response, model: Seq<char>) -> bool {
    &&& response.id@ == "fake-response-id"@
    &&& response.object@ == "text_completion"@
    &&& response.model@ == model
    &&& response.created_at == FAKE_CREATED_AT
    &&& response.status == Status::Completed
    &&& response.output@.len() == 1
    &&& response.output@[0].id@ == "fake-message-id"@
    &&& response.output@[0].role == ChatRole::Assistant
    &&& response.output@[0].status == Status::Completed
    &&& response.output@[0].text@ == "This is a fake response."@
}

/// `completion` is the fake provider's chat completion for the model `model`.
pub open spec fn is_fake_completion(completion: ChatCompletion, model: Seq<char>) -> bool {
    &&& completion.id@ == "fake-completion-id"@
    &&& completion.object@ == "text_completion"@
    &&& completion.model@ == model
    &&& completion.created == FAKE_CREATED_AT
    &&& completion.choices@.len() == 1
    &&& completion.choices@[0].index == 0
    &&& completion.choices@[0].message.role == ChatRole::Assistant
    &&& completion.choices@[0].message.content@ == "This is a fake chat completion."@
}

/// What the fake provider for `model` decides on a request for a response:
/// it refuses one that names a model and answers every other one itself.
pub open spec fn fake_response_decided(
    model: Seq<char>,
    request: ResponseRequest,
    decided: Result<Dispatch<Response>, ApiError>,
) -> bool {
    match decided {
        Ok(Dispatch::Answered(response)) => request.model is None && is_fake_response(
            response,
            model,
        ),
        Ok(Dispatch::Forward(_)) => false,
        Err(e) => request.model is Some && e is ModelSpecified,
    }
}

/// What the fake provider for `model` decides on a request for a chat
/// completion: it refuses one that names a model and answers every other one
/// itself.
pub open spec fn fake_completion_decided(
    model: Seq<char>,
    request: CompletionRequest,
    decided: Result<Dispatch<ChatCompletion>, ApiError>,
) -> bool {
    match decided {
        Ok(Dispatch::Answered(completion)) => request.model is None && is_fake_completion(
            completion,
            model,
        ),
        Ok(Dispatch::Forward(_)) => false,
        Err(e) => request.model is Some && e is ModelSpecified,
    }
}

impl FakerProvider {
    /// The fake provider for the model that `config` declares.
    pub fn new(config: ModelConfig) -> (provider: FakerProvider)
        ensures
            provider@ == config.id@,
    {
        FakerProvider { model: config.id }
    }
}

impl Provider for FakerProvider {
    fn name(&self) -> (name: &'static str)
        ensures
            name@ == "FakeProvider"@,
    {
        "FakeProvider"
    }

    fn create_response(&self, request: &ResponseRequest) -> (decided: Result<
        Dispatch<Response>,
        ApiError,
    >)
        ensures
            fake_response_decided(self@, *request, decided),
    {
        match validate_responses_request(request) {
            Ok(()) => {},
            Err(e) => {
                return Err(e);
            },
        }
        let mut output: Vec<OutputMessage> = Vec::new();
        output.push(
            OutputMessage {
                id: String::from_str("fake-message-id"),
                role: ChatRole::Assistant,
                status: Status::Completed,
                text: String::from_str("This is a fake response."),
            },
        );
        Ok(
            Dispatch::Answered(
                Response {
                    id: String::from_str("fake-response-id"),
                    object: String::from_str("text_completion"),
                    model: self.model.clone(),
                    created_at: FAKE_CREATED_AT as u64,
                    status: Status::Completed,
                    output,
                },
            ),
        )
    }

    fn create_completion(&self, request: &CompletionRequest) -> (decided: Result<
        Dispatch<ChatCompletion>,
        ApiError,
    >)
        ensures
            fake_completion_decided(self@, *request, decided),
    {
        match validate_completion_request(request) {
            Ok(()) => {},
            Err(e) => {
                return Err(e);
            },
        }
        let mut choices: Vec<ChatChoice> = Vec::new();
        choices.push(
            ChatChoice {
                index: 0,
                message: TextMessage {
                    role: ChatRole::Assistant,
                    content: String::from_str("This is a fake chat completion."),
                },
            },
        );
        Ok(
            Dispatch::Answered(
                ChatCompletion {
                    id: String::from_str("fake-completion-id"),
                    object: String::from_str("text_completion"),
                    model: self.model.clone(),
                    created: FAKE_CREATED_AT,
                    choices,
                },
            ),
        )
    }
}

} // verus!
