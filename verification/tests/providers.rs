use arms::config::{Environment, ModelConfig};
use arms::provider::faker::FakerProvider;
use arms::provider::openai::OpenAIProvider;
use arms::provider::provider::{
    construct_provider, provider_for_family, validate_completion_request,
    validate_responses_request, AnyProvider, Provider, ProviderError,
};
use arms::types::{
    ApiError, ChatRole, CompletionRequest, Dispatch, ResponseRequest, Status, TextMessage,
};

fn test_env() -> Environment {
    let mut env = Environment::new();
    env.set("OPENAI_API_KEY".to_string(), "openai-test-key".to_string());
    env.set("DEEPINFRA_API_KEY".to_string(), "deepinfra-test-key".to_string());
    env
}

fn response_request(model: Option<&str>) -> ResponseRequest {
    ResponseRequest { model: model.map(|m| m.to_string()), input: "Hello".to_string() }
}

fn completion_request(model: Option<&str>) -> CompletionRequest {
    CompletionRequest {
        model: model.map(|m| m.to_string()),
        messages: vec![
            TextMessage {
                role: ChatRole::System,
                content: "You are a helpful assistant.".to_string(),
            },
            TextMessage {
                role: ChatRole::User,
                content: "How long it takes to learn Rust?".to_string(),
            },
        ],
    }
}

#[test]
fn test_provider_construction() {
    struct TestCase {
        name: &'static str,
        config: ModelConfig,
        expect_provider_type: &'static str,
    }

    let cases = vec![
        TestCase {
            name: "OpenAI Provider",
            config: ModelConfig::new("test-model".to_string())
                .provider("openai")
                .base_url("https://api.openai.com/v1")
                .build()
                .unwrap(),
            expect_provider_type: "OpenAIProvider",
        },
        TestCase {
            name: "Unsupported Provider",
            config: ModelConfig::new("test-model".to_string())
                .provider("unsupported")
                .base_url("https://api.openai.com/v1")
                .build()
                .unwrap(),
            expect_provider_type: "",
        },
    ];

    for case in cases {
        let result = construct_provider(case.config, &test_env());
        if case.expect_provider_type.is_empty() {
            assert!(result.is_err(), "Test case '{}' did not fail as expected", case.name);
        } else {
            let provider = result.unwrap();
            assert!(
                provider.name() == case.expect_provider_type,
                "Test case '{}': expected provider type '{}', got '{}'",
                case.name,
                case.expect_provider_type,
                provider.name()
            );
        }
    }
}

#[test]
fn the_family_decides_the_provider_whatever_its_case() {
    for (family, expected) in [
        ("faker", "FakeProvider"),
        ("FAKER", "FakeProvider"),
        ("Faker", "FakeProvider"),
        ("openai", "OpenAIProvider"),
        ("OPENAI", "OpenAIProvider"),
        ("deepinfra", "OpenAIProvider"),
        ("DeepInfra", "OpenAIProvider"),
    ] {
        let config = ModelConfig::new("m".to_string()).provider(family).base_url("http://x");
        let provider = construct_provider(config, &test_env()).unwrap();
        assert_eq!(provider.name(), expected, "family {}", family);
    }
}

#[test]
fn provider_construction_errors() {
    let env = test_env();
    let made = construct_provider(ModelConfig::new("m".to_string()).base_url("http://x"), &env);
    match made {
        Err(ProviderError::MissingProvider { model }) => assert_eq!(model, "m"),
        _ => panic!("expected an error"),
    }
    let made = construct_provider(
        ModelConfig::new("m".to_string()).provider("unsupported").base_url("http://x"),
        &env,
    );
    match made {
        Err(ProviderError::UnsupportedProvider { provider }) => assert_eq!(provider, "unsupported"),
        _ => panic!("expected an error"),
    }
    let made = construct_provider(
        ModelConfig::new("m".to_string()).provider("openai").base_url("http://x"),
        &Environment::new(),
    );
    match made {
        Err(ProviderError::MissingCredential { provider, variable }) => {
            assert_eq!(provider, "OPENAI");
            assert_eq!(variable, "OPENAI_API_KEY");
        }
        _ => panic!("expected an error"),
    }
    let made = construct_provider(ModelConfig::new("m".to_string()).provider("openai"), &env);
    match made {
        Err(ProviderError::MissingBaseUrl { model }) => assert_eq!(model, "m"),
        _ => panic!("expected an error"),
    }
    // The fake provider needs neither a credential nor a base URL.
    let made = construct_provider(
        ModelConfig::new("m".to_string()).provider("faker"),
        &Environment::new(),
    );
    assert!(matches!(made, Ok(AnyProvider::Faker(_))));
}

#[test]
fn provider_for_family_goes_by_the_upper_case_name() {
    let config = ModelConfig::new("m".to_string()).provider("faker").base_url("http://x");
    let made = provider_for_family(config.clone(), "FAKER".to_string(), &test_env());
    assert!(matches!(made, Ok(AnyProvider::Faker(_))));
    let made = provider_for_family(config.clone(), "faker".to_string(), &test_env());
    match made {
        Err(ProviderError::UnsupportedProvider { provider }) => assert_eq!(provider, "faker"),
        _ => panic!("expected an error"),
    }
    let made = provider_for_family(config, "DEEPINFRA".to_string(), &test_env());
    assert!(matches!(made, Ok(AnyProvider::OpenAI(_))));
}

#[test]
fn provider_error_messages() {
    assert_eq!(
        ProviderError::MissingProvider { model: "m".to_string() }.message(),
        "Model 'm' provider is not provided."
    );
    assert_eq!(
        ProviderError::MissingBaseUrl { model: "m".to_string() }.message(),
        "Model 'm' base_url is not provided."
    );
    assert_eq!(
        ProviderError::MissingCredential {
            provider: "FOO".to_string(),
            variable: "FOO_API_KEY".to_string()
        }
        .message(),
        "API key for provider 'FOO' not found in environment variable 'FOO_API_KEY'"
    );
    assert_eq!(
        ProviderError::UnsupportedProvider { provider: "foo".to_string() }.message(),
        "Unsupported provider: foo"
    );
}

#[test]
fn a_request_that_names_a_model_is_refused() {
    assert!(validate_responses_request(&response_request(None)).is_ok());
    assert!(matches!(
        validate_responses_request(&response_request(Some("gpt-4"))),
        Err(ApiError::ModelSpecified)
    ));
    assert!(matches!(
        validate_responses_request(&response_request(Some(""))),
        Err(ApiError::ModelSpecified)
    ));
    assert!(validate_completion_request(&completion_request(None)).is_ok());
    assert!(matches!(
        validate_completion_request(&completion_request(Some("gpt-4"))),
        Err(ApiError::ModelSpecified)
    ));
}

#[test]
fn api_error_messages() {
    assert_eq!(ApiError::ModelSpecified.message(), "Model must be specified in the client.Config");
    assert_eq!(
        ApiError::ResponsesUnsupported { provider: "DEEPINFRA".to_string() }.message(),
        "Provider 'DEEPINFRA' doesn't support Responses endpoint"
    );
}

#[test]
fn fake_provider_answers_with_its_fixed_response() {
    let provider = FakerProvider::new(ModelConfig::new("fake-model".to_string()));
    assert_eq!(provider.name(), "FakeProvider");
    match provider.create_response(&response_request(None)) {
        Ok(Dispatch::Answered(response)) => {
            assert_eq!(response.id, "fake-response-id");
            assert_eq!(response.object, "text_completion");
            assert_eq!(response.model, "fake-model");
            assert_eq!(response.created_at, 1_600_000_000);
            assert_eq!(response.status, Status::Completed);
            assert_eq!(response.output.len(), 1);
            assert_eq!(response.output[0].id, "fake-message-id");
            assert_eq!(response.output[0].role, ChatRole::Assistant);
            assert_eq!(response.output[0].status, Status::Completed);
            assert_eq!(response.output[0].text, "This is a fake response.");
        }
        _ => panic!("the fake provider did not answer"),
    }
}

#[test]
fn fake_provider_answers_with_its_fixed_completion() {
    let provider = FakerProvider::new(ModelConfig::new("fake-model".to_string()));
    match provider.create_completion(&completion_request(None)) {
        Ok(Dispatch::Answered(completion)) => {
            assert_eq!(completion.id, "fake-completion-id");
            assert_eq!(completion.object, "text_completion");
            assert_eq!(completion.model, "fake-model");
            assert_eq!(completion.created, 1_600_000_000);
            assert_eq!(completion.choices.len(), 1);
            assert_eq!(completion.choices[0].index, 0);
            assert_eq!(completion.choices[0].message.role, ChatRole::Assistant);
            assert_eq!(completion.choices[0].message.content, "This is a fake chat completion.");
        }
        _ => panic!("the fake provider did not answer"),
    }
}

#[test]
fn fake_provider_refuses_a_named_model() {
    let provider = FakerProvider::new(ModelConfig::new("fake-model".to_string()));
    assert!(matches!(
        provider.create_response(&response_request(Some("other"))),
        Err(ApiError::ModelSpecified)
    ));
    assert!(matches!(
        provider.create_completion(&completion_request(Some("other"))),
        Err(ApiError::ModelSpecified)
    ));
}

#[test]
fn openai_provider_forwards_to_its_endpoint() {
    let config =
        ModelConfig::new("gpt-4".to_string()).provider("openai").base_url("https://api.openai.com/v1");
    let provider = OpenAIProvider::builder(config, &test_env()).unwrap().build();
    assert_eq!(provider.name(), "OpenAIProvider");
    assert_eq!(provider.provider_name(), "OPENAI");
    let endpoint = provider.endpoint();
    assert_eq!(endpoint.base_url, "https://api.openai.com/v1");
    assert_eq!(endpoint.api_key, "openai-test-key");
    assert_eq!(endpoint.model, "gpt-4");
    match provider.create_response(&response_request(None)) {
        Ok(Dispatch::Forward(to)) => {
            assert_eq!(to.base_url, "https://api.openai.com/v1");
            assert_eq!(to.api_key, "openai-test-key");
            assert_eq!(to.model, "gpt-4");
        }
        _ => panic!("the request was not forwarded"),
    }
    match provider.create_completion(&completion_request(None)) {
        Ok(Dispatch::Forward(to)) => assert_eq!(to.model, "gpt-4"),
        _ => panic!("the request was not forwarded"),
    }
    assert!(matches!(
        provider.create_response(&response_request(Some("gpt-4"))),
        Err(ApiError::ModelSpecified)
    ));
    assert!(matches!(
        provider.create_completion(&completion_request(Some("gpt-4"))),
        Err(ApiError::ModelSpecified)
    ));
}

#[test]
fn builder_keeps_the_given_family_name() {
    let config = ModelConfig::new("m".to_string()).provider("deepinfra").base_url("http://x");
    let provider =
        OpenAIProvider::builder(config, &test_env()).unwrap().provider_name("deepinfra").build();
    assert_eq!(provider.provider_name(), "deepinfra");
    assert_eq!(provider.endpoint().api_key, "deepinfra-test-key");
    // The last name that was set stays.
    let config = ModelConfig::new("m".to_string()).provider("openai").base_url("http://x");
    let mut builder = OpenAIProvider::builder(config, &test_env()).unwrap();
    builder.provider_name("first").provider_name("second");
    assert_eq!(builder.build().provider_name(), "second");
}

#[test]
fn deepinfra_has_no_responses_endpoint() {
    for family in ["DEEPINFRA", "deepinfra"] {
        let config = ModelConfig::new("m".to_string()).provider(family).base_url("http://x");
        let provider = construct_provider(config, &test_env()).unwrap();
        // Refused whether or not the request names a model.
        for named in [None, Some("m")] {
            match provider.create_response(&response_request(named)) {
                Err(ApiError::ResponsesUnsupported { provider }) => assert_eq!(provider, family),
                _ => panic!("the request was not refused"),
            }
        }
        // Chat completions are served.
        assert!(matches!(
            provider.create_completion(&completion_request(None)),
            Ok(Dispatch::Forward(_))
        ));
    }
}

#[test]
fn admit_response_goes_by_the_upper_case_family() {
    let config = ModelConfig::new("m".to_string()).provider("openai").base_url("http://x");
    let provider = OpenAIProvider::builder(config, &test_env()).unwrap().build();
    assert!(matches!(
        provider.admit_response("OPENAI", &response_request(None)),
        Ok(Dispatch::Forward(_))
    ));
    assert!(matches!(
        provider.admit_response("DEEPINFRA", &response_request(None)),
        Err(ApiError::ResponsesUnsupported { .. })
    ));
    assert!(matches!(
        provider.admit_response("deepinfra", &response_request(None)),
        Ok(Dispatch::Forward(_))
    ));
}
