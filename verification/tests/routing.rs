use arms::config::{ModelConfig, RoutingMode};
use arms::router::random::RandomRouter;
use arms::router::router::{construct_router, AnyRouter, ModelInfo, Router, RouterError};
use arms::router::stats::RouterStats;
use arms::router::weight::WeightedRouter;

fn model(name: &str, weight: i32) -> ModelInfo {
    ModelInfo { name: name.to_string(), weight }
}

fn weighted(weights: &[i32]) -> WeightedRouter {
    let models = weights.iter().enumerate().map(|(i, w)| model(&format!("m{}", i), *w)).collect();
    WeightedRouter::new(models).unwrap()
}

fn count(picks: &[usize], n: usize) -> Vec<usize> {
    let mut counts = vec![0; n];
    for p in picks {
        counts[*p] += 1;
    }
    counts
}

#[test]
fn test_router_construction() {
    let model_configs = vec![
        ModelConfig::new("model_a".to_string())
            .provider("openai")
            .base_url("https://api.openai.com/v1")
            .build()
            .unwrap(),
        ModelConfig::new("model_b".to_string())
            .provider("openai")
            .base_url("https://api.openai.com/v1")
            .build()
            .unwrap(),
    ];

    let random_router = construct_router(RoutingMode::Random, model_configs.clone()).unwrap();
    assert_eq!(random_router.name(), "RandomRouter");

    // Models that declare no weight have none that weighted routing could use.
    let refused = construct_router(RoutingMode::Weighted, model_configs.clone());
    match refused {
        Err(RouterError::NonPositiveWeight { model }) => assert_eq!(model, "model_a"),
        _ => panic!("a router was built from weights that are not positive"),
    }

    let with_weights: Vec<ModelConfig> = model_configs.into_iter().map(|m| m.weight(1)).collect();
    let weighted_router = construct_router(RoutingMode::Weighted, with_weights).unwrap();
    assert_eq!(weighted_router.name(), "WeightedRoundRobinRouter");
}

#[test]
fn weighted_two_to_one_gives_a_b_a() {
    let mut router = WeightedRouter::new(vec![model("model-A", 2), model("model-B", 1)]).unwrap();
    let picks: Vec<String> = (0..3).map(|_| router.sample()).collect();
    assert_eq!(picks, vec!["model-A", "model-B", "model-A"]);
    // The next window repeats the first.
    let picks: Vec<String> = (0..3).map(|_| router.sample()).collect();
    assert_eq!(picks, vec!["model-A", "model-B", "model-A"]);
}

#[test]
fn weighted_five_one_one_is_smooth() {
    let mut router = weighted(&[5, 1, 1]);
    let picks: Vec<usize> = (0..7).map(|_| router.advance()).collect();
    assert_eq!(picks, vec![0, 0, 1, 0, 2, 0, 0]);
}

#[test]
fn every_window_of_total_weight_selects_each_model_weight_times() {
    for weights in [vec![1], vec![3], vec![2, 1], vec![5, 1, 1], vec![1, 1, 1, 6, 6], vec![4, 3, 2, 1]] {
        let total: i32 = weights.iter().sum();
        let total = total as usize;
        let mut router = weighted(&weights);
        let picks: Vec<usize> = (0..4 * total).map(|_| router.advance()).collect();
        for start in 0..3 * total {
            let counts = count(&picks[start..start + total], weights.len());
            let expected: Vec<usize> = weights.iter().map(|w| *w as usize).collect();
            assert_eq!(counts, expected, "weights {:?}, window at {}", weights, start);
        }
    }
}

#[test]
fn equal_weights_take_turns_in_declaration_order() {
    let mut router = weighted(&[3, 3, 3, 3]);
    let picks: Vec<usize> = (0..8).map(|_| router.advance()).collect();
    assert_eq!(picks, vec![0, 1, 2, 3, 0, 1, 2, 3]);
}

#[test]
fn two_runs_over_the_same_weights_agree() {
    let mut first = weighted(&[2, 2, 1, 7, 7]);
    let mut second = weighted(&[2, 2, 1, 7, 7]);
    for _ in 0..100 {
        assert_eq!(first.advance(), second.advance());
    }
    let mut first = WeightedRouter::new(vec![model("a", 1), model("b", 1)]).unwrap();
    let mut second = WeightedRouter::new(vec![model("a", 1), model("b", 1)]).unwrap();
    for _ in 0..10 {
        assert_eq!(first.sample(), second.sample());
    }
}

#[test]
fn weighted_router_knows_its_models() {
    let router = WeightedRouter::new(vec![model("a", 1), model("b", 9)]).unwrap();
    assert_eq!(router.len(), 2);
    assert_eq!(router.model_id(0), "a");
    assert_eq!(router.model_id(1), "b");
    assert_eq!(router.name(), "WeightedRoundRobinRouter");
}

#[test]
fn weighted_router_needs_a_model() {
    assert!(matches!(WeightedRouter::new(vec![]), Err(RouterError::NoModels)));
}

#[test]
fn weighted_router_names_the_first_weight_that_is_not_positive() {
    let made = WeightedRouter::new(vec![model("a", 1), model("b", 0), model("c", -1)]);
    match made {
        Err(RouterError::NonPositiveWeight { model }) => assert_eq!(model, "b"),
        _ => panic!("expected an error"),
    }
    let made = WeightedRouter::new(vec![model("a", -1)]);
    match made {
        Err(RouterError::NonPositiveWeight { model }) => assert_eq!(model, "a"),
        _ => panic!("expected an error"),
    }
}

#[test]
fn weighted_router_takes_the_greatest_weight() {
    let mut router = weighted(&[i32::MAX, 1]);
    assert_eq!(router.advance(), 0);
    let mut router = weighted(&[i32::MAX, i32::MAX, i32::MAX]);
    let picks: Vec<usize> = (0..6).map(|_| router.advance()).collect();
    assert_eq!(picks, vec![0, 1, 2, 0, 1, 2]);
}

#[test]
fn weighted_router_refuses_weights_beyond_its_integers() {
    // 70 000 models of the greatest weight: their number times the sum of the
    // weights is beyond i64::MAX.
    let models: Vec<ModelInfo> = (0..70_000).map(|i| model(&format!("m{}", i), i32::MAX)).collect();
    assert!(matches!(WeightedRouter::new(models), Err(RouterError::WeightsTooLarge)));
    // 65 000 of them are within it, and the turns go round.
    let models: Vec<ModelInfo> = (0..65_000).map(|i| model(&format!("m{}", i), i32::MAX)).collect();
    let mut router = WeightedRouter::new(models).unwrap();
    for turn in 0..200 {
        assert_eq!(router.advance(), turn);
    }
}

#[test]
fn router_error_messages() {
    assert_eq!(RouterError::NoModels.message(), "At least one model must be configured.");
    assert_eq!(
        RouterError::NonPositiveWeight { model: "m".to_string() }.message(),
        "Model 'm' weight must be positive in Weighted routing mode."
    );
    assert_eq!(RouterError::WeightsTooLarge.message(), "The model weights are too large.");
}

#[test]
fn random_router_needs_a_model() {
    assert!(matches!(RandomRouter::new(vec![]), Err(RouterError::NoModels)));
    assert!(matches!(construct_router(RoutingMode::Random, vec![]), Err(RouterError::NoModels)));
    assert!(matches!(construct_router(RoutingMode::Weighted, vec![]), Err(RouterError::NoModels)));
}

#[test]
fn random_router_ignores_weights() {
    let router = RandomRouter::new(vec![model("a", -1), model("b", 0)]).unwrap();
    assert_eq!(router.len(), 2);
    assert_eq!(router.select(0), "a");
    assert_eq!(router.select(1), "b");
    assert_eq!(router.name(), "RandomRouter");
}

#[test]
fn random_router_selects_only_its_models_and_reaches_each() {
    let names = ["a", "b", "c"];
    let mut router = RandomRouter::new(names.iter().map(|n| model(n, -1)).collect()).unwrap();
    let mut seen = [0usize; 3];
    for _ in 0..3000 {
        let id = router.sample();
        let at = names.iter().position(|n| *n == id).expect("an identifier of the router");
        seen[at] += 1;
    }
    assert!(seen.iter().all(|n| *n > 0), "selections: {:?}", seen);
}

#[test]
fn random_router_with_one_model_selects_it() {
    let mut router = RandomRouter::new(vec![model("only", 5)]).unwrap();
    for _ in 0..20 {
        assert_eq!(router.sample(), "only");
    }
}

#[test]
fn construct_router_gives_the_router_of_the_mode() {
    let models = vec![
        ModelConfig::new("x".to_string()).weight(2),
        ModelConfig::new("y".to_string()).weight(1),
    ];
    let mut router = construct_router(RoutingMode::Weighted, models.clone()).unwrap();
    assert!(matches!(router, AnyRouter::Weighted(_)));
    let picks: Vec<String> = (0..3).map(|_| router.sample()).collect();
    assert_eq!(picks, vec!["x", "y", "x"]);
    let mut router = construct_router(RoutingMode::Random, models).unwrap();
    assert!(matches!(router, AnyRouter::Random(_)));
    let id = router.sample();
    assert!(id == "x" || id == "y");
}

#[test]
fn stats_count_each_request() {
    let mut stats = RouterStats::default();
    let a = "model-A".to_string();
    let b = "model-B".to_string();
    assert_eq!(stats.requests(&a), 0);
    for n in 1..=25usize {
        assert_eq!(stats.increment_request(&a), n);
        assert_eq!(stats.requests(&a), n);
    }
    assert_eq!(stats.requests(&b), 0);
    assert_eq!(stats.increment_request(&b), 1);
    assert_eq!(stats.requests(&a), 25);
    assert_eq!(stats.requests(&b), 1);
}

#[test]
fn stats_follow_the_weights() {
    let mut router = WeightedRouter::new(vec![model("model-A", 2), model("model-B", 1)]).unwrap();
    let mut stats = RouterStats::default();
    for _ in 0..30 {
        let id = router.sample();
        stats.increment_request(&id);
    }
    assert_eq!(stats.requests(&"model-A".to_string()), 20);
    assert_eq!(stats.requests(&"model-B".to_string()), 10);
}
