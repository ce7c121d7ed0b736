use arms::client::{ChatRole, Client, TextMessage};
use arms::config::{Config, Environment, ModelConfig, RoutingMode};
use arms::provider::provider::ProviderError;
use arms::router::router::RouterError;
use arms::types::{ApiError, CompletionRequest, Dispatch, ResponseRequest};

fn request(model: Option<&str>) -> ResponseRequest {
    ResponseRequest { model: model.map(|m| m.to_string()), input: "Hello".to_string() }
}

fn fake_config() -> Config {
    Config::new()
        .provider("faker")
        .base_url("http://localhost")
        .routing_mode(RoutingMode::Weighted)
        .add_model(ModelConfig::new("model-A".to_string()).weight(2))
        .add_model(ModelConfig::new("model-B".to_string()).weight(1))
}

fn fake_env() -> Environment {
    let mut env = Environment::new();
    env.set("FAKER_API_KEY".to_string(), "none".to_string());
    env
}

fn answered_model(client: &mut Client) -> String {
    match client.create_response(&request(None)) {
        Ok(Dispatch::Answered(response)) => response.model,
        _ => panic!("the fake provider did not answer"),
    }
}

#[test]
fn client_dispatches_two_to_one() {
    let config = fake_config().build(&fake_env()).unwrap();
    let mut client = Client::new(&config).unwrap();
    assert!(!client.ready());
    client.build(&fake_env()).unwrap();
    assert!(client.ready());
    let models: Vec<String> = (0..6).map(|_| answered_model(&mut client)).collect();
    assert_eq!(models, vec!["model-A", "model-B", "model-A", "model-A", "model-B", "model-A"]);
}

#[test]
fn client_refuses_a_named_model_after_routing() {
    let config = fake_config().build(&fake_env()).unwrap();
    let mut client = Client::new(&config).unwrap();
    client.build(&fake_env()).unwrap();
    assert!(matches!(client.create_response(&request(Some("model-B"))), Err(ApiError::ModelSpecified)));
    // The refused request has used up the first selection.
    assert_eq!(answered_model(&mut client), "model-B");
    let named = CompletionRequest { model: Some("model-A".to_string()), messages: vec![] };
    assert!(matches!(client.create_completion(&named), Err(ApiError::ModelSpecified)));
}

#[test]
fn client_completes_chats() {
    let config = fake_config().build(&fake_env()).unwrap();
    let mut client = Client::new(&config).unwrap();
    client.build(&fake_env()).unwrap();
    let chat = CompletionRequest {
        model: None,
        messages: vec![TextMessage {
            role: ChatRole::User,
            content: "How long it takes to learn Rust?".to_string(),
        }],
    };
    let mut models = vec![];
    for _ in 0..3 {
        match client.create_completion(&chat) {
            Ok(Dispatch::Answered(completion)) => {
                assert_eq!(completion.choices[0].message.content, "This is a fake chat completion.");
                models.push(completion.model);
            }
            _ => panic!("the fake provider did not answer"),
        }
    }
    assert_eq!(models, vec!["model-A", "model-B", "model-A"]);
}

#[test]
fn client_tracker_counts_the_selections() {
    let config = fake_config().build(&fake_env()).unwrap();
    let mut client = Client::new(&config).unwrap();
    client.build(&fake_env()).unwrap();
    let a = "model-A".to_string();
    let b = "model-B".to_string();
    assert_eq!(client.requests(&a), None);
    answered_model(&mut client);
    assert_eq!(client.requests(&a), None);
    client.enable_router_tracker();
    assert_eq!(client.requests(&a), Some(0));
    for _ in 0..30 {
        answered_model(&mut client);
    }
    assert_eq!(client.requests(&a), Some(20));
    assert_eq!(client.requests(&b), Some(10));
    assert_eq!(client.requests(&"model-C".to_string()), Some(0));
    // Enabling again keeps the counts.
    client.enable_router_tracker();
    assert_eq!(client.requests(&a), Some(20));
    // A refused request is counted as well: the selection comes first.
    assert!(client.create_response(&request(Some("model-A"))).is_err());
    assert_eq!(client.requests(&a).unwrap() + client.requests(&b).unwrap(), 31);
}

#[test]
fn client_build_twice_keeps_the_providers() {
    let config = fake_config().build(&fake_env()).unwrap();
    let mut client = Client::new(&config).unwrap();
    client.build(&fake_env()).unwrap();
    client.build(&fake_env()).unwrap();
    assert!(client.ready());
    assert_eq!(answered_model(&mut client), "model-A");
}

#[test]
fn client_selects_before_the_provider_decides() {
    let config = fake_config().build(&fake_env()).unwrap();
    let mut client = Client::new(&config).unwrap();
    client.enable_router_tracker();
    client.enable_router_tracker();
    let picks: Vec<String> = (0..3).map(|_| client.select_model()).collect();
    assert_eq!(picks, vec!["model-A", "model-B", "model-A"]);
}

#[test]
fn client_forwards_to_the_selected_backend() {
    let mut env = Environment::new();
    env.set("OPENAI_API_KEY".to_string(), "key-1".to_string());
    env.set("DEEPINFRA_API_KEY".to_string(), "key-2".to_string());
    let config = Config::new()
        .routing_mode(RoutingMode::Weighted)
        .add_model(ModelConfig::new("gpt-4".to_string()).provider("OPENAI").weight(1))
        .add_model(
            ModelConfig::new("deepseek-ai/DeepSeek-V3.2".to_string())
                .provider("DEEPINFRA")
                .weight(1),
        )
        .build(&env)
        .unwrap();
    let mut client = Client::new(&config).unwrap();
    client.build(&env).unwrap();
    match client.create_response(&request(None)) {
        Ok(Dispatch::Forward(to)) => {
            assert_eq!(to.model, "gpt-4");
            assert_eq!(to.base_url, "https://api.openai.com/v1");
            assert_eq!(to.api_key, "key-1");
        }
        _ => panic!("the request was not forwarded"),
    }
    match client.create_response(&request(None)) {
        Err(ApiError::ResponsesUnsupported { provider }) => assert_eq!(provider, "DEEPINFRA"),
        _ => panic!("the request was not refused"),
    }
    let chat = CompletionRequest { model: None, messages: vec![] };
    assert!(matches!(client.create_completion(&chat), Ok(Dispatch::Forward(_))));
    match client.create_completion(&chat) {
        Ok(Dispatch::Forward(to)) => {
            assert_eq!(to.model, "deepseek-ai/DeepSeek-V3.2");
            assert_eq!(to.base_url, "https://api.deepinfra.com/v1/openai");
            assert_eq!(to.api_key, "key-2");
        }
        _ => panic!("the request was not forwarded"),
    }
}

#[test]
fn client_needs_a_router() {
    assert!(matches!(Client::new(&Config::new()), Err(RouterError::NoModels)));
    let unweighted = Config::new()
        .routing_mode(RoutingMode::Weighted)
        .add_model(ModelConfig::new("m".to_string()));
    match Client::new(&unweighted) {
        Err(RouterError::NonPositiveWeight { model }) => assert_eq!(model, "m"),
        _ => panic!("expected an error"),
    }
}

#[test]
fn client_build_reports_the_first_provider_that_cannot_be_built() {
    let config = Config::new()
        .add_model(ModelConfig::new("fine".to_string()).provider("faker"))
        .add_model(ModelConfig::new("odd".to_string()).provider("unsupported"))
        .add_model(ModelConfig::new("bare".to_string()));
    let mut client = Client::new(&config).unwrap();
    match client.build(&Environment::new()) {
        Err(ProviderError::UnsupportedProvider { provider }) => assert_eq!(provider, "unsupported"),
        _ => panic!("expected an error"),
    }
    assert!(!client.ready());
}

#[test]
fn client_with_random_routing_answers_from_its_models() {
    let config = Config::new()
        .provider("faker")
        .base_url("http://localhost")
        .add_model(ModelConfig::new("model-A".to_string()))
        .add_model(ModelConfig::new("model-B".to_string()))
        .build(&fake_env())
        .unwrap();
    let mut client = Client::new(&config).unwrap();
    client.build(&Environment::new()).unwrap();
    for _ in 0..50 {
        let model = answered_model(&mut client);
        assert!(model == "model-A" || model == "model-B");
    }
}
