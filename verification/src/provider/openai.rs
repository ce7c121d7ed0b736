//! The provider for backends that speak the OpenAI protocol.

use crate::config::{
    api_key_variable, api_key_variable_of, family_of, Environment, ModelConfig, ModelSettings,
};
use crate::provider::provider::{
    validate_completion_request, validate_responses_request, Provider, ProviderError,
    ProviderFault,
};
use crate::text::{same_text, to_uppercase, uppercase_of};
use crate::types::{
    ApiError, ChatCompletion, CompletionRequest, Dispatch, Endpoint, Response, ResponseRequest,
};
use vstd::prelude::*;
use vstd::string::StringExecFns;

verus! {

/// A provider that admits requests for one model and says where they are to
/// be sent: to the model's base URL, with the credential of its backend
/// family.
pub struct OpenAIProvider {
    model: String,
    base_url: String,
    api_key: String,
    provider_name: String,
}

/// What an `OpenAIProvider` holds, as mathematical values.
pub struct OpenAISettings {
    pub model: Seq<char>,
    pub base_url: Seq<char>,
    pub api_key: Seq<char>,
    pub provider_name: Seq<char>,
}

impl View for OpenAIProvider {
    type V = OpenAISettings;

    closed spec fn view(&self) -> OpenAISettings {
        OpenAISettings {
            model: self.model@,
            base_url: self.base_url@,
            api_key: self.api_key@,
            provider_name: self.provider_name@,
        }
    }
}

/// An `OpenAIProvider` in the making: the backend family's name may still be
/// set.
pub struct OpenAIProviderBuilder {
    model: String,
    base_url: String,
    api_key: String,
    provider_name: Option<String>,
}

/// What an `OpenAIProviderBuilder` holds, as mathematical values.
pub struct OpenAIDraft {
    pub model: Seq<char>,
    pub base_url: Seq<char>,
    pub api_key: Seq<char>,
    pub provider_name: Option<Seq<char>>,
}

impl View for OpenAIProviderBuilder {
    type V = OpenAIDraft;

    closed spec fn view(&self) -> OpenAIDraft {
        OpenAIDraft {
            model: self.model@,
            base_url: self.base_url@,
            api_key: self.api_key@,
            provider_name: crate::text::text_of(self.provider_name),
        }
    }
}

/// The backend family of a provider whose name was never set.
pub open spec fn default_provider_name() -> Seq<char> {
    "OPENAI"@
}

/// The builder for a model whose backend family has the upper-case name
/// `family`, or why there is none: the model must declare a backend family,
/// the environment must hold the family's credential, and the model must have
/// a base URL.
pub open spec fn planned_builder(
    config: ModelSettings,
    family: Seq<char>,
    env: Map<Seq<char>, Seq<char>>,
) -> Result<OpenAIDraft, ProviderFault> {
    let variable = api_key_variable_of(family);
    if config.provider is None {
        Err(ProviderFault::MissingProvider { model: config.id })
    } else if !env.contains_key(variable) {
        Err(ProviderFault::MissingCredential { provider: family, variable })
    } else if config.base_url is None {
        Err(ProviderFault::MissingBaseUrl { model: config.id })
    } else {
        Ok(
            OpenAIDraft {
                model: config.id,
                base_url: config.base_url->0,
                api_key: env[variable],
                provider_name: None,
            },
        )
    }
}

/// The provider that a builder makes.
pub open spec fn built(draft: OpenAIDraft) -> OpenAISettings {
    OpenAISettings {
        model: draft.model,
        base_url: draft.base_url,
        api_key: draft.api_key,
        provider_name: match draft.provider_name {
            Some(name) => name,
            None => default_provider_name(),
        },
    }
}

/// Whether the backend family of this upper-case name offers the responses
/// endpoint. DeepInfra does not.
pub open spec fn offers_responses(family: Seq<char>) -> bool {
    family != "DEEPINFRA"@
}

/// `endpoint` is where the requests of the provider `settings` go.
pub open spec fn is_endpoint_of(endpoint: Endpoint, settings: OpenAISettings) -> bool {
    &&& endpoint.base_url@ == settings.base_url
    &&& endpoint.api_key@ == settings.api_key
    &&& endpoint.model@ == settings.model
}

/// What the provider `settings`, whose backend family has the upper-case name
/// `family`, decides on a request for a response. A family without the
/// responses endpoint refuses every request; the others refuse a request that
/// names a model and forward every other one.
pub open spec fn openai_response_decided(
    settings: OpenAISettings,
    family: Seq<char>,
    request: ResponseRequest,
    decided: Result<Dispatch<Response>, ApiError>,
) -> bool {
    match decided {
        Ok(Dispatch::Forward(endpoint)) => offers_responses(family) && request.model is None
            && is_endpoint_of(endpoint, settings),
        Ok(Dispatch::Answered(_)) => false,
        Err(ApiError::ResponsesUnsupported { provider }) => !offers_responses(family)
            && provider@ == settings.provider_name,
        Err(ApiError::ModelSpecified) => offers_responses(family) && request.model is Some,
    }
}

/// What the provider `settings` decides on a request for a chat completion:
/// it refuses one that names a model and forwards every other one.
pub open spec fn openai_completion_decided(
    settings: OpenAISettings,
    request: CompletionRequest,
    decided: Result<Dispatch<ChatCompletion>, ApiError>,
) -> bool {
    match decided {
        Ok(Dispatch::Forward(endpoint)) => request.model is None && is_endpoint_of(
            endpoint,
            settings,
        ),
        Ok(Dispatch::Answered(_)) => false,
        Err(e) => request.model is Some && e is ModelSpecified,
    }
}

impl OpenAIProvider {
    /// Starts a provider for the model that `config` declares. The credential
    /// is that of the model's backend family, looked up in `env` under the
    /// family's upper-case name followed by `_API_KEY`.
    pub fn builder(config: ModelConfig, env: &Environment) -> (made: Result<
        OpenAIProviderBuilder,
        ProviderError,
    >)
        ensures
            match made {
                Ok(builder) => planned_builder(config@, family_of(config@.provider), env@) == Ok::<
                    OpenAIDraft,
                    ProviderFault,
                >(builder@),
                Err(e) => planned_builder(config@, family_of(config@.provider), env@) == Err::<
                    OpenAIDraft,
                    ProviderFault,
                >(e@),
            },
    {
        let family = match &config.provider {
            Some(provider) => to_uppercase(provider.as_str()),
            None => {
                return Err(ProviderError::MissingProvider { model: config.id });
            },
        };
        OpenAIProvider::builder_for_family(config, family, env)
    }

    /// Starts a provider for the model that `config` declares, whose backend
    /// family has the upper-case name `family`.
    pub fn builder_for_family(config: ModelConfig, family: String, env: &Environment) -> (made:
        Result<OpenAIProviderBuilder, ProviderError>)
        ensures
            match made {
                Ok(builder) => planned_builder(config@, family@, env@) == Ok::<
                    OpenAIDraft,
                    ProviderFault,
                >(builder@),
                Err(e) => planned_builder(config@, family@, env@) == Err::<
                    OpenAIDraft,
                    ProviderFault,
                >(e@),
            },
    {
        if config.provider.is_none() {
            return Err(ProviderError::MissingProvider { model: config.id });
        }
        let variable = api_key_variable(family.as_str());
        let api_key = match env.get(variable.as_str()) {
            Some(key) => key,
            None => {
                return Err(ProviderError::MissingCredential { provider: family, variable });
            },
        };
        let base_url = match config.base_url {
            Some(url) => url,
            None => {
                return Err(ProviderError::MissingBaseUrl { model: config.id });
            },
        };
        Ok(OpenAIProviderBuilder { model: config.id, base_url, api_key, provider_name: None })
    }

    /// Where the provider's requests go.
    pub fn endpoint(&self) -> (endpoint: Endpoint)
        ensures
            is_endpoint_of(endpoint, self@),
    {
        Endpoint {
            base_url: self.base_url.clone(),
            api_key: self.api_key.clone(),
            model: self.model.clone(),
        }
    }

    /// The name of the provider's backend family, as it was given.
    pub fn provider_name(&self) -> (name: &String)
        ensures
            name@ == self@.provider_name,
    {
        &self.provider_name
    }

    /// Decides on a request for a response, given the upper-case name
    /// `family` of the provider's backend family.
    pub fn admit_response(&self, family: &str, request: &ResponseRequest) -> (decided: Result<
        Dispatch<Response>,
        ApiError,
    >)
        ensures
            openai_response_decided(self@, family@, *request, decided),
    {
        if same_text(family, "DEEPINFRA") {
            return Err(ApiError::ResponsesUnsupported { provider: self.provider_name.clone() });
        }
        match validate_responses_request(request) {
            Ok(()) => Ok(Dispatch::Forward(self.endpoint())),
            Err(e) => Err(e),
        }
    }
}

impl OpenAIProviderBuilder {
    /// Sets the name of the backend family and hands the builder back for
    /// the next step.
    pub fn provider_name(&mut self, name: &str) -> (builder: &mut Self)
        ensures
            builder@ == (OpenAIDraft { provider_name: Some(name@), ..old(self)@ }),
            *final(self) == *final(builder),
    {
        self.provider_name = Some(String::from_str(name));
        self
    }

    /// The provider. Where no backend family was named, it is OPENAI.
    pub fn build(&self) -> (provider: OpenAIProvider)
        ensures
            provider@ == built(self@),
    {
        OpenAIProvider {
            model: self.model.clone(),
            base_url: self.base_url.clone(),
            api_key: self.api_key.clone(),
            provider_name: match &self.provider_name {
                Some(name) => name.clone(),
                None => String::from_str("OPENAI"),
            },
        }
    }
}

impl Provider for OpenAIProvider {
    fn name(&self) -> (name: &'static str)
        ensures
            name@ == "OpenAIProvider"@,
    {
        "OpenAIProvider"
    }

    fn create_response(&self, request: &ResponseRequest) -> (decided: Result<
        Dispatch<Response>,
        ApiError,
    >)
        ensures
            openai_response_decided(self@, uppercase_of(self@.provider_name), *request, decided),
    {
        let family = to_uppercase(self.provider_name.as_str());
        self.admit_response(family.as_str(), request)
    }

    fn create_completion(&self, request: &CompletionRequest) -> (decided: Result<
        Dispatch<ChatCompletion>,
        ApiError,
    >)
        ensures
            openai_completion_decided(self@, *request, decided),
    {
        match validate_completion_request(request) {
            Ok(()) => Ok(Dispatch::Forward(self.endpoint())),
            Err(e) => Err(e),
        }
    }
}

} // verus!
