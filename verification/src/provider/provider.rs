//! What every provider offers, the checks that all providers share, and the
//! choice of the provider for a model.

use crate::config::{family_of, Environment, ModelConfig, ModelSettings};
use crate::provider::faker::{fake_completion_decided, fake_response_decided, FakerProvider};
use crate::provider::openai::{
    built, openai_completion_decided, openai_response_decided, planned_builder, OpenAIDraft,
    OpenAIProvider, OpenAISettings,
};
use crate::text::{same_text, to_uppercase, uppercase_of};
use crate::types::{
    ApiError, ChatCompletion, CompletionRequest, Dispatch, Response, ResponseRequest,
};
use vstd::prelude::*;
use vstd::string::StringExecFns;

verus! {

/// Why no provider could be built for a model, as mathematical values.
pub enum ProviderFault {
    MissingProvider { model: Seq<char> },
    MissingBaseUrl { model: Seq<char> },
    MissingCredential { provider: Seq<char>, variable: Seq<char> },
    UnsupportedProvider { provider: Seq<char> },
}

impl ProviderFault {
    /// The text of the fault's message.
    pub open spec fn message_text(self) -> Seq<char> {
        match self {
            ProviderFault::MissingProvider { model } => "Model '"@ + model
                + "' provider is not provided."@,
            ProviderFault::MissingBaseUrl { model } => "Model '"@ + model
                + "' base_url is not provided."@,
            ProviderFault::MissingCredential { provider, variable } => "API key for provider '"@
                + provider + "' not found in environment variable '"@ + variable + "'"@,
            ProviderFault::UnsupportedProvider { provider } => "Unsupported provider: "@
                + provider,
        }
    }
}

/// Why no provider could be built for a model.
#[derive(Debug, Clone)]
pub enum ProviderError {
    /// The model of this name declares no backend family.
    MissingProvider { model: String },
    /// The model of this name has no base URL.
    MissingBaseUrl { model: String },
    /// The environment lacks the variable that holds the credential of the
    /// backend family.
    MissingCredential { provider: String, variable: String },
    /// No provider serves the backend family of this name.
    UnsupportedProvider { provider: String },
}

impl View for ProviderError {
    type V = ProviderFault;

    open spec fn view(&self) -> ProviderFault {
        match *self {
            ProviderError::MissingProvider { model } => ProviderFault::MissingProvider {
                model: model@,
            },
            ProviderError::MissingBaseUrl { model } => ProviderFault::MissingBaseUrl {
                model: model@,
            },
            ProviderError::MissingCredential { provider, variable } => {
                ProviderFault::MissingCredential { provider: provider@, variable: variable@ }
            },
            ProviderError::UnsupportedProvider { provider } => ProviderFault::UnsupportedProvider {
                provider: provider@,
            },
        }
    }
}

impl ProviderError {
    /// The error's message for the caller.
    pub fn message(&self) -> (text: String)
        ensures
            text@ == self@.message_text(),
    {
        match self {
            ProviderError::MissingProvider { model } => String::from_str("Model '").concat(
                model.as_str(),
            ).concat("' provider is not provided."),
            ProviderError::MissingBaseUrl { model } => String::from_str("Model '").concat(
                model.as_str(),
            ).concat("' base_url is not provided."),
            ProviderError::MissingCredential { provider, variable } => String::from_str(
                "API key for provider '",
            ).concat(provider.as_str()).concat("' not found in environment variable '").concat(
                variable.as_str(),
            ).concat("'"),
            ProviderError::UnsupportedProvider { provider } => String::from_str(
                "Unsupported provider: ",
            ).concat(provider.as_str()),
        }
    }
}

/// A provider decides what becomes of a request for its model. It refuses a
/// request that it cannot serve before any backend is contacted.
pub trait Provider {
    /// The name of the kind of provider.
    fn name(&self) -> &'static str;

    /// Decides on a request for a response. A request that names a model is
    /// always refused.
    fn create_response(&self, request: &ResponseRequest) -> (decided: Result<
        Dispatch<Response>,
        ApiError,
    >)
        ensures
            request.model is Some ==> decided is Err,
    ;

    /// Decides on a request for a chat completion. A request that names a
    /// model is always refused.
    fn create_completion(&self, request: &CompletionRequest) -> (decided: Result<
        Dispatch<ChatCompletion>,
        ApiError,
    >)
        ensures
            request.model is Some ==> decided is Err,
    ;
}

/// Refuses a request for a response that names a model, and no other.
pub fn validate_responses_request(request: &ResponseRequest) -> (checked: Result<(), ApiError>)
    ensures
        match checked {
            Ok(()) => request.model is None,
            Err(e) => request.model is Some && e is ModelSpecified,
        },
{
    if request.model.is_some() {
        return Err(ApiError::ModelSpecified);
    }
    Ok(())
}

/// Refuses a request for a chat completion that names a model, and no other.
pub fn validate_completion_request(request: &CompletionRequest) -> (checked: Result<(), ApiError>)
    ensures
        match checked {
            Ok(()) => request.model is None,
            Err(e) => request.model is Some && e is ModelSpecified,
        },
{
    if request.model.is_some() {
        return Err(ApiError::ModelSpecified);
    }
    Ok(())
}

/// Any provider of this library.
pub enum AnyProvider {
    Faker(FakerProvider),
    OpenAI(OpenAIProvider),
}

/// What an `AnyProvider` holds, as mathematical values.
pub enum ProviderSettings {
    Faker(Seq<char>),
    OpenAI(OpenAISettings),
}

impl View for AnyProvider {
    type V = ProviderSettings;

    open spec fn view(&self) -> ProviderSettings {
        match self {
            AnyProvider::Faker(p) => ProviderSettings::Faker(p@),
            AnyProvider::OpenAI(p) => ProviderSettings::OpenAI(p@),
        }
    }
}

/// What the provider `settings` decides on a request for a response.
pub open spec fn response_decided(
    settings: ProviderSettings,
    request: ResponseRequest,
    decided: Result<Dispatch<Response>, ApiError>,
) -> bool {
    match settings {
        ProviderSettings::Faker(model) => fake_response_decided(model, request, decided),
        ProviderSettings::OpenAI(p) => openai_response_decided(
            p,
            uppercase_of(p.provider_name),
            request,
            decided,
        ),
    }
}

/// What the provider `settings` decides on a request for a chat completion.
pub open spec fn completion_decided(
    settings: ProviderSettings,
    request: CompletionRequest,
    decided: Result<Dispatch<ChatCompletion>, ApiError>,
) -> bool {
    match settings {
        ProviderSettings::Faker(model) => fake_completion_decided(model, request, decided),
        ProviderSettings::OpenAI(p) => openai_completion_decided(p, request, decided),
    }
}

impl Provider for AnyProvider {
    fn name(&self) -> (name: &'static str)
        ensures
            self is Faker ==> name@ == "FakeProvider"@,
            self is OpenAI ==> name@ == "OpenAIProvider"@,
    {
        match self {
            AnyProvider::Faker(p) => p.name(),
            AnyProvider::OpenAI(p) => p.name(),
        }
    }

    fn create_response(&self, request: &ResponseRequest) -> (decided: Result<
        Dispatch<Response>,
        ApiError,
    >)
        ensures
            response_decided(self@, *request, decided),
    {
        match self {
            AnyProvider::Faker(p) => p.create_response(request),
            AnyProvider::OpenAI(p) => p.create_response(request),
        }
    }

    fn create_completion(&self, request: &CompletionRequest) -> (decided: Result<
        Dispatch<ChatCompletion>,
        ApiError,
    >)
        ensures
            completion_decided(self@, *request, decided),
    {
        match self {
            AnyProvider::Faker(p) => p.create_completion(request),
            AnyProvider::OpenAI(p) => p.create_completion(request),
        }
    }
}

/// The provider for a model whose backend family has the upper-case name
/// `family`, or why there is none. FAKER has the fake provider; OPENAI and
/// DEEPINFRA have the OpenAI provider, which keeps the family's name as the
/// model declares it; no other family is served.
pub open spec fn planned_provider(
    config: ModelSettings,
    family: Seq<char>,
    env: Map<Seq<char>, Seq<char>>,
) -> Result<ProviderSettings, ProviderFault> {
    if config.provider is None {
        Err(ProviderFault::MissingProvider { model: config.id })
    } else if family == "FAKER"@ {
        Ok(ProviderSettings::Faker(config.id))
    } else if family == "OPENAI"@ || family == "DEEPINFRA"@ {
        match planned_builder(config, family, env) {
            Ok(draft) => Ok(
                ProviderSettings::OpenAI(
                    built(OpenAIDraft { provider_name: config.provider, ..draft }),
                ),
            ),
            Err(fault) => Err(fault),
        }
    } else {
        Err(ProviderFault::UnsupportedProvider { provider: config.provider->0 })
    }
}

/// `made` is the provider, or the error, that `planned` describes.
pub open spec fn is_planned(
    made: Result<AnyProvider, ProviderError>,
    planned: Result<ProviderSettings, ProviderFault>,
) -> bool {
    match made {
        Ok(provider) => planned == Ok::<ProviderSettings, ProviderFault>(provider@),
        Err(e) => planned == Err::<ProviderSettings, ProviderFault>(e@),
    }
}

/// Builds the provider for the model that `config` declares, by the
/// upper-case form of the name of its backend family. The credential is looked
/// up in `env`.
pub fn construct_provider(config: ModelConfig, env: &Environment) -> (made: Result<
    AnyProvider,
    ProviderError,
>)
    ensures
        is_planned(made, planned_provider(config@, family_of(config@.provider), env@)),
{
    let family = match &config.provider {
        Some(provider) => to_uppercase(provider.as_str()),
        None => {
            return Err(ProviderError::MissingProvider { model: config.id });
        },
    };
    provider_for_family(config, family, env)
}

/// Builds the provider for the model that `config` declares, whose backend
/// family has the upper-case name `family`.
pub fn provider_for_family(config: ModelConfig, family: String, env: &Environment) -> (made:
    Result<AnyProvider, ProviderError>)
    ensures
        is_planned(made, planned_provider(config@, family@, env@)),
{
    let name = match &config.provider {
        Some(provider) => provider.clone(),
        None => {
            return Err(ProviderError::MissingProvider { model: config.id });
        },
    };
    if same_text(family.as_str(), "FAKER") {
        Ok(AnyProvider::Faker(FakerProvider::new(config)))
    } else if same_text(family.as_str(), "OPENAI") || same_text(family.as_str(), "DEEPINFRA") {
        match OpenAIProvider::builder_for_family(config, family, env) {
            Ok(builder) => {
                let mut builder = builder;
                Ok(AnyProvider::OpenAI(builder.provider_name(name.as_str()).build()))
            },
            Err(e) => Err(e),
        }
    } else {
        Err(ProviderError::UnsupportedProvider { provider: name })
    }
}

} // verus!
