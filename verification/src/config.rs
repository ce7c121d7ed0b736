//! The gateway's configuration: the declared models, the defaults that they
//! inherit, and the rules that a configuration must meet before a client is
//! built from it.

use crate::text::{copy_of, same_text, text_of, to_uppercase, uppercase_of};
use vstd::hash_map::StringHashMap;
use vstd::prelude::*;
use vstd::string::StringExecFns;

verus! {

/// The name of a backend family.
pub type ProviderName = String;

/// The identifier of a model.
pub type ModelId = String;

/// The greatest temperature, in thousandths: 1000 stands for 1.0.
pub const MAX_TEMPERATURE: u32 = 1000;

/// The temperature of a model that declares none, in thousandths.
pub const DEFAULT_TEMPERATURE: u32 = 800;

/// The limit on output tokens of a model that declares none.
pub const DEFAULT_MAX_OUTPUT_TOKENS: usize = 1024;

// ------------------ Environment ------------------
/// The variables of the process environment, as they stood when the program
/// read them: each name with its value.
pub struct Environment {
    variables: StringHashMap<String>,
}

impl View for Environment {
    type V = Map<Seq<char>, Seq<char>>;

    closed spec fn view(&self) -> Map<Seq<char>, Seq<char>> {
        Map::new(
            |name: Seq<char>| self.variables@.contains_key(name),
            |name: Seq<char>| self.variables@[name]@,
        )
    }
}

impl Environment {
    /// An environment without variables.
    pub fn new() -> (env: Environment)
        ensures
            env@ == Map::<Seq<char>, Seq<char>>::empty(),
    {
        let env = Environment { variables: StringHashMap::new() };
        assert(env@ =~= Map::<Seq<char>, Seq<char>>::empty());
        env
    }

    /// Sets the variable `name` to `value`, replacing an earlier value.
    pub fn set(&mut self, name: String, value: String)
        ensures
            final(self)@ == old(self)@.insert(name@, value@),
    {
        let ghost name_text = name@;
        let ghost value_text = value@;
        self.variables.insert(name, value);
        assert(self@ =~= old(self)@.insert(name_text, value_text));
    }

    /// Whether the variable `name` is set.
    pub fn contains(&self, name: &str) -> (set: bool)
        ensures
            set == self@.contains_key(name@),
    {
        self.variables.contains_key(name)
    }

    /// The value of the variable `name`, if it is set.
    pub fn get(&self, name: &str) -> (value: Option<String>)
        ensures
            match value {
                Some(v) => self@.contains_key(name@) && v@ == self@[name@],
                None => !self@.contains_key(name@),
            },
    {
        match self.variables.get(name) {
            Some(v) => Some(v.clone()),
            None => None,
        }
    }
}

/// The upper-case name of the backend family that a model declares; empty
/// where it declares none.
pub open spec fn family_of(provider: Option<Seq<char>>) -> Seq<char> {
    match provider {
        Some(name) => uppercase_of(name),
        None => Seq::empty(),
    }
}

/// The name of the environment variable that holds the credential of a
/// backend family, given the family's name in upper case.
pub open spec fn api_key_variable_of(family: Seq<char>) -> Seq<char> {
    family + "_API_KEY"@
}

/// The name of the environment variable that holds the credential of the
/// backend family whose upper-case name is `family`.
pub fn api_key_variable(family: &str) -> (variable: String)
    ensures
        variable@ == api_key_variable_of(family@),
{
    String::from_str(family).concat("_API_KEY")
}

// ------------------ Provider ------------------
/// The base URL that is known for a backend family, by the family's name in
/// upper case.
pub open spec fn known_base_url(family: Seq<char>) -> Option<Seq<char>> {
    if family == "OPENAI"@ {
        Some("https://api.openai.com/v1"@)
    } else if family == "DEEPINFRA"@ {
        Some("https://api.deepinfra.com/v1/openai"@)
    } else if family == "OPENROUTER"@ {
        Some("https://openrouter.ai/api/v1"@)
    } else {
        None
    }
}

/// Looks the backend family whose upper-case name is `family` up in the table
/// of known base URLs.
pub fn provider_base_url(family: &str) -> (url: Option<String>)
    ensures
        text_of(url) == known_base_url(family@),
{
    if same_text(family, "OPENAI") {
        Some(String::from_str("https://api.openai.com/v1"))
    } else if same_text(family, "DEEPINFRA") {
        Some(String::from_str("https://api.deepinfra.com/v1/openai"))
    } else if same_text(family, "OPENROUTER") {
        Some(String::from_str("https://openrouter.ai/api/v1"))
    } else {
        None
    }
}

// ------------------ Routing Mode ------------------
/// The policy by which the router selects a model.
#[derive(Debug, Clone, Copy, PartialEq, Eq, Structural)]
pub enum RoutingMode {
    /// Every model with the same probability.
    Random,
    /// Smooth weighted round robin over the models' weights.
    Weighted,
}

// ------------------ Model Config ------------------
/// One declared model. A field that is unset inherits the configuration's
/// default when the configuration is built.
#[derive(Debug, Clone)]
pub struct ModelConfig {
    pub base_url: Option<String>,
    pub provider: Option<ProviderName>,
    /// The sampling temperature in thousandths: 800 stands for 0.8.
    pub temperature: Option<u32>,
    pub max_output_tokens: Option<usize>,
    pub id: ModelId,
    /// The sampling weight; -1 where weighted routing is not used.
    pub weight: i32,
}

/// What a `ModelConfig` holds, as mathematical values.
pub struct ModelSettings {
    pub base_url: Option<Seq<char>>,
    pub provider: Option<Seq<char>>,
    pub temperature: Option<u32>,
    pub max_output_tokens: Option<usize>,
    pub id: Seq<char>,
    pub weight: i32,
}

impl View for ModelConfig {
    type V = ModelSettings;

    open spec fn view(&self) -> ModelSettings {
        ModelSettings {
            base_url: text_of(self.base_url),
            provider: text_of(self.provider),
            temperature: self.temperature,
            max_output_tokens: self.max_output_tokens,
            id: self.id@,
            weight: self.weight,
        }
    }
}

impl ModelConfig {
    /// A model with the identifier `id` and nothing else declared.
    pub fn new(id: ModelId) -> (model: ModelConfig)
        ensures
            model@ == (ModelSettings {
                base_url: None,
                provider: None,
                temperature: None,
                max_output_tokens: None,
                id: id@,
                weight: -1i32,
            }),
    {
        ModelConfig {
            base_url: None,
            provider: None,
            temperature: None,
            max_output_tokens: None,
            id,
            weight: -1,
        }
    }

    /// The same model with the base URL `url`.
    pub fn base_url(self, url: &str) -> (model: ModelConfig)
        ensures
            model@ == (ModelSettings { base_url: Some(url@), ..self@ }),
    {
        let mut model = self;
        model.base_url = Some(String::from_str(url));
        model
    }

    /// The same model with the backend family `provider`.
    pub fn provider(self, provider: &str) -> (model: ModelConfig)
        ensures
            model@ == (ModelSettings { provider: Some(provider@), ..self@ }),
    {
        let mut model = self;
        model.provider = Some(String::from_str(provider));
        model
    }

    /// The same model with the temperature `temperature`, in thousandths.
    pub fn temperature(self, temperature: u32) -> (model: ModelConfig)
        ensures
            model@ == (ModelSettings { temperature: Some(temperature), ..self@ }),
    {
        let mut model = self;
        model.temperature = Some(temperature);
        model
    }

    /// The same model with the limit `max_output_tokens` on output tokens.
    pub fn max_output_tokens(self, max_output_tokens: usize) -> (model: ModelConfig)
        ensures
            model@ == (ModelSettings { max_output_tokens: Some(max_output_tokens), ..self@ }),
    {
        let mut model = self;
        model.max_output_tokens = Some(max_output_tokens);
        model
    }

    /// The same model with the sampling weight `weight`.
    pub fn weight(self, weight: i32) -> (model: ModelConfig)
        ensures
            model@ == (ModelSettings { weight: weight, ..self@ }),
    {
        let mut model = self;
        model.weight = weight;
        model
    }

    /// Ends the declaration. A model by itself is never refused: the rules
    /// are applied when the configuration is built.
    pub fn build(self) -> (built: Result<ModelConfig, ConfigError>)
        ensures
            built matches Ok(model) && model == self,
    {
        Ok(self)
    }

    /// A copy of the model.
    pub fn duplicate(&self) -> (copy: ModelConfig)
        ensures
            copy == *self,
    {
        ModelConfig {
            base_url: copy_of(&self.base_url),
            provider: copy_of(&self.provider),
            temperature: self.temperature,
            max_output_tokens: self.max_output_tokens,
            id: self.id.clone(),
            weight: self.weight,
        }
    }
}

// ------------------ Errors ------------------
/// Why a configuration is refused, as mathematical values.
pub enum ConfigFault {
    NoModels,
    MissingBaseUrl { model: Seq<char> },
    NonPositiveWeight { model: Seq<char> },
    ZeroMaxOutputTokens { model: Seq<char> },
    TemperatureOutOfRange { model: Seq<char> },
    MissingCredential { provider: Seq<char>, variable: Seq<char> },
}

impl ConfigFault {
    /// The text of the fault's message.
    pub open spec fn message_text(self) -> Seq<char> {
        match self {
            ConfigFault::NoModels => "At least one model must be configured."@,
            ConfigFault::MissingBaseUrl { model } => "Model '"@ + model
                + "' base_url is not provided."@,
            ConfigFault::NonPositiveWeight { model } => "Model '"@ + model
                + "' weight must be positive in Weighted routing mode."@,
            ConfigFault::ZeroMaxOutputTokens { model } => "Model '"@ + model
                + "' max_output_tokens must be positive."@,
            ConfigFault::TemperatureOutOfRange { model } => "Model '"@ + model
                + "' temperature must be between 0.0 and 1.0."@,
            ConfigFault::MissingCredential { provider, variable } => "API key for provider '"@
                + provider + "' not found in environment variable '"@ + variable + "'"@,
        }
    }
}

/// Why a configuration is refused.
#[derive(Debug, Clone)]
pub enum ConfigError {
    /// The configuration declares no model.
    NoModels,
    /// The model has no base URL of its own, its backend family has no known
    /// one, and the configuration has no default.
    MissingBaseUrl { model: ModelId },
    /// The routing mode is `Weighted` and the model's weight is not positive.
    NonPositiveWeight { model: ModelId },
    /// The model's limit on output tokens is zero.
    ZeroMaxOutputTokens { model: ModelId },
    /// The model's temperature lies outside 0.0 to 1.0.
    TemperatureOutOfRange { model: ModelId },
    /// The environment lacks the variable that holds the credential of the
    /// model's backend family.
    MissingCredential { provider: ProviderName, variable: String },
}

impl View for ConfigError {
    type V = ConfigFault;

    open spec fn view(&self) -> ConfigFault {
        match *self {
            ConfigError::NoModels => ConfigFault::NoModels,
            ConfigError::MissingBaseUrl { model } => ConfigFault::MissingBaseUrl { model: model@ },
            ConfigError::NonPositiveWeight { model } => ConfigFault::NonPositiveWeight {
                model: model@,
            },
            ConfigError::ZeroMaxOutputTokens { model } => ConfigFault::ZeroMaxOutputTokens {
                model: model@,
            },
            ConfigError::TemperatureOutOfRange { model } => ConfigFault::TemperatureOutOfRange {
                model: model@,
            },
            ConfigError::MissingCredential { provider, variable } => ConfigFault::MissingCredential {
                provider: provider@,
                variable: variable@,
            },
        }
    }
}

/// `"Model '"`, the model's identifier, and `tail`.
fn model_message(model: &String, tail: &str) -> (text: String)
    ensures
        text@ == "Model '"@ + model@ + tail@,
{
    String::from_str("Model '").concat(model.as_str()).concat(tail)
}

impl ConfigError {
    /// The error's message for the caller.
    pub fn message(&self) -> (text: String)
        ensures
            text@ == self@.message_text(),
    {
        match self {
            ConfigError::NoModels => String::from_str("At least one model must be configured."),
            ConfigError::MissingBaseUrl { model } => model_message(
                model,
                "' base_url is not provided.",
            ),
            ConfigError::NonPositiveWeight { model } => model_message(
                model,
                "' weight must be positive in Weighted routing mode.",
            ),
            ConfigError::ZeroMaxOutputTokens { model } => model_message(
                model,
                "' max_output_tokens must be positive.",
            ),
            ConfigError::TemperatureOutOfRange { model } => model_message(
                model,
                "' temperature must be between 0.0 and 1.0.",
            ),
            ConfigError::MissingCredential { provider, variable } => String::from_str(
                "API key for provider '",
            ).concat(provider.as_str()).concat("' not found in environment variable '").concat(
                variable.as_str(),
            ).concat("'"),
        }
    }
}

// ------------------ Main Config ------------------
/// The gateway's configuration: the defaults, the routing mode and the
/// declared models.
#[derive(Debug, Clone)]
pub struct Config {
    /// The base URL of a model that has none of its own and whose backend
    /// family has no known one.
    pub base_url: Option<String>,
    /// The backend family of a model that declares none.
    pub provider: ProviderName,
    /// The temperature of a model that declares none, in thousandths.
    pub temperature: u32,
    /// The limit on output tokens of a model that declares none.
    pub max_output_tokens: usize,
    pub routing_mode: RoutingMode,
    pub models: Vec<ModelConfig>,
}

/// What a `Config` holds, as mathematical values.
pub struct Settings {
    pub base_url: Option<Seq<char>>,
    pub provider: Seq<char>,
    pub temperature: u32,
    pub max_output_tokens: usize,
    pub routing_mode: RoutingMode,
    pub models: Seq<ModelSettings>,
}

impl View for Config {
    type V = Settings;

    open spec fn view(&self) -> Settings {
        Settings {
            base_url: text_of(self.base_url),
            provider: self.provider@,
            temperature: self.temperature,
            max_output_tokens: self.max_output_tokens,
            routing_mode: self.routing_mode,
            models: Seq::new(self.models@.len(), |i: int| self.models@[i]@),
        }
    }
}

/// The backend family of a model: its own, else the default one.
pub open spec fn provider_of(model: ModelSettings, defaults: Settings) -> Seq<char> {
    match model.provider {
        Some(p) => p,
        None => defaults.provider,
    }
}

/// The model with every unset field filled in from the defaults.
pub open spec fn resolve_model(model: ModelSettings, defaults: Settings) -> ModelSettings {
    resolve_model_of_family(model, uppercase_of(provider_of(model, defaults)), defaults)
}

/// The model with every unset field filled in from the defaults, where the
/// model's backend family has the upper-case name `family`. The base URL is
/// the model's own, else the one known for its backend family, else the
/// default, else none.
pub open spec fn resolve_model_of_family(
    model: ModelSettings,
    family: Seq<char>,
    defaults: Settings,
) -> ModelSettings {
    ModelSettings {
        base_url: match model.base_url {
            Some(url) => Some(url),
            None => match known_base_url(family) {
                Some(url) => Some(url),
                None => defaults.base_url,
            },
        },
        provider: Some(provider_of(model, defaults)),
        temperature: match model.temperature {
            Some(t) => Some(t),
            None => Some(defaults.temperature),
        },
        max_output_tokens: match model.max_output_tokens {
            Some(n) => Some(n),
            None => Some(defaults.max_output_tokens),
        },
        id: model.id,
        weight: model.weight,
    }
}

/// The configuration with every model resolved against the defaults.
pub open spec fn resolve(settings: Settings) -> Settings {
    Settings {
        models: Seq::new(
            settings.models.len(),
            |i: int| resolve_model(settings.models[i], settings),
        ),
        ..settings
    }
}

/// The first rule that a resolved model breaks, if it breaks one. The rules
/// in order: a base URL is there; under `Weighted` routing the weight is
/// positive; the limit on output tokens is not zero; the temperature is at
/// most 1.0; the environment holds the credential of the backend family.
pub open spec fn model_fault(
    model: ModelSettings,
    mode: RoutingMode,
    env: Map<Seq<char>, Seq<char>>,
) -> Option<ConfigFault> {
    if model.base_url is None {
        Some(ConfigFault::MissingBaseUrl { model: model.id })
    } else if mode == RoutingMode::Weighted && model.weight <= 0 {
        Some(ConfigFault::NonPositiveWeight { model: model.id })
    } else if model.max_output_tokens == Some(0usize) {
        Some(ConfigFault::ZeroMaxOutputTokens { model: model.id })
    } else if model.temperature is Some && model.temperature->0 > MAX_TEMPERATURE {
        Some(ConfigFault::TemperatureOutOfRange { model: model.id })
    } else if model.provider is Some {
        credential_fault(uppercase_of(model.provider->0), env)
    } else {
        None
    }
}

/// The fault of a backend family, named in upper case, whose credential the
/// environment does not hold.
pub open spec fn credential_fault(family: Seq<char>, env: Map<Seq<char>, Seq<char>>) -> Option<
    ConfigFault,
> {
    if env.contains_key(api_key_variable_of(family)) {
        None
    } else {
        Some(
            ConfigFault::MissingCredential {
                provider: family,
                variable: api_key_variable_of(family),
            },
        )
    }
}

/// The fault of the first model that breaks a rule, if any does.
pub open spec fn first_fault(
    models: Seq<ModelSettings>,
    mode: RoutingMode,
    env: Map<Seq<char>, Seq<char>>,
) -> Option<ConfigFault>
    decreases models.len(),
{
    if models.len() == 0 {
        None
    } else {
        match first_fault(models.drop_last(), mode, env) {
            Some(fault) => Some(fault),
            None => model_fault(models.last(), mode, env),
        }
    }
}

/// Why a resolved configuration is refused, if it is: it declares no model,
/// or one of its models breaks a rule.
pub open spec fn config_fault(settings: Settings, env: Map<Seq<char>, Seq<char>>) -> Option<
    ConfigFault,
> {
    if settings.models.len() == 0 {
        Some(ConfigFault::NoModels)
    } else {
        first_fault(settings.models, settings.routing_mode, env)
    }
}

/// A fault among the first `k` models is the fault of the whole list.
pub proof fn lemma_first_fault_prefix(
    models: Seq<ModelSettings>,
    mode: RoutingMode,
    env: Map<Seq<char>, Seq<char>>,
    k: int,
)
    requires
        0 <= k <= models.len(),
        first_fault(models.take(k), mode, env) is Some,
    ensures
        first_fault(models, mode, env) == first_fault(models.take(k), mode, env),
    decreases models.len(),
{
    if k == models.len() {
        assert(models.take(k) =~= models);
    } else {
        assert(models.drop_last().take(k) =~= models.take(k));
        lemma_first_fault_prefix(models.drop_last(), mode, env, k);
    }
}

/// A list of models in which one breaks a rule has a fault.
pub proof fn lemma_fault_found(
    models: Seq<ModelSettings>,
    mode: RoutingMode,
    env: Map<Seq<char>, Seq<char>>,
    i: int,
)
    requires
        0 <= i < models.len(),
        model_fault(models[i], mode, env) is Some,
    ensures
        first_fault(models, mode, env) is Some,
{
    let upto = models.take(i + 1);
    assert(upto.last() == models[i]);
    lemma_first_fault_prefix(models, mode, env, i + 1);
}

/// What is always refused: a configuration without models; one with a model
/// that has no base URL of its own while neither its backend family's table
/// entry nor the default gives one; and, under `Weighted` routing, one with a
/// model whose weight is not positive. `Config::build` returns an error
/// exactly when `config_fault` of the resolved configuration is `Some`.
pub proof fn lemma_always_refused(settings: Settings, env: Map<Seq<char>, Seq<char>>, i: int)
    ensures
        settings.models.len() == 0 ==> config_fault(resolve(settings), env) == Some(
            ConfigFault::NoModels,
        ),
        0 <= i < settings.models.len() && resolve_model(settings.models[i], settings).base_url
            is None ==> config_fault(resolve(settings), env) is Some,
        0 <= i < settings.models.len() && settings.routing_mode == RoutingMode::Weighted
            && settings.models[i].weight <= 0 ==> config_fault(resolve(settings), env) is Some,
{
    if 0 <= i < settings.models.len() {
        let resolved = resolve(settings);
        if model_fault(resolved.models[i], resolved.routing_mode, env) is Some {
            lemma_fault_found(resolved.models, resolved.routing_mode, env, i);
        }
    }
}

impl ModelConfig {
    /// The model with every unset field filled in from `defaults`.
    pub fn resolved(&self, defaults: &Config) -> (model: ModelConfig)
        ensures
            model@ == resolve_model(self@, defaults@),
    {
        let family = match &self.provider {
            Some(p) => to_uppercase(p.as_str()),
            None => to_uppercase(defaults.provider.as_str()),
        };
        self.resolved_of_family(family.as_str(), defaults)
    }

    /// The model with every unset field filled in from `defaults`, where the
    /// model's backend family has the upper-case name `family`.
    pub fn resolved_of_family(&self, family: &str, defaults: &Config) -> (model: ModelConfig)
        ensures
            model@ == resolve_model_of_family(self@, family@, defaults@),
    {
        let provider = match &self.provider {
            Some(p) => p.clone(),
            None => defaults.provider.clone(),
        };
        let base_url = match &self.base_url {
            Some(url) => Some(url.clone()),
            None => match provider_base_url(family) {
                Some(url) => Some(url),
                None => copy_of(&defaults.base_url),
            },
        };
        let temperature = match self.temperature {
            Some(t) => t,
            None => defaults.temperature,
        };
        let max_output_tokens = match self.max_output_tokens {
            Some(n) => n,
            None => defaults.max_output_tokens,
        };
        ModelConfig {
            base_url,
            provider: Some(provider),
            temperature: Some(temperature),
            max_output_tokens: Some(max_output_tokens),
            id: self.id.clone(),
            weight: self.weight,
        }
    }

    /// Holds a resolved model to the rules, in their order, and reports the
    /// first one that it breaks.
    pub fn check(&self, mode: RoutingMode, env: &Environment) -> (checked: Result<(), ConfigError>)
        ensures
            match checked {
                Ok(()) => model_fault(self@, mode, env@) is None,
                Err(e) => model_fault(self@, mode, env@) == Some(e@),
            },
    {
        if self.base_url.is_none() {
            return Err(ConfigError::MissingBaseUrl { model: self.id.clone() });
        }
        if mode == RoutingMode::Weighted && self.weight <= 0 {
            return Err(ConfigError::NonPositiveWeight { model: self.id.clone() });
        }
        if let Some(max_output_tokens) = self.max_output_tokens {
            if max_output_tokens == 0 {
                return Err(ConfigError::ZeroMaxOutputTokens { model: self.id.clone() });
            }
        }
        if let Some(temperature) = self.temperature {
            if temperature > MAX_TEMPERATURE {
                return Err(ConfigError::TemperatureOutOfRange { model: self.id.clone() });
            }
        }
        if let Some(provider) = &self.provider {
            let family = to_uppercase(provider.as_str());
            return check_credential(family, env);
        }
        Ok(())
    }
}

/// Looks for the credential of the backend family whose upper-case name is
/// `family`, and names the missing variable where the environment lacks it.
pub fn check_credential(family: String, env: &Environment) -> (checked: Result<(), ConfigError>)
    ensures
        match checked {
            Ok(()) => credential_fault(family@, env@) is None,
            Err(e) => credential_fault(family@, env@) == Some(e@),
        },
{
    let variable = api_key_variable(family.as_str());
    if env.contains(variable.as_str()) {
        Ok(())
    } else {
        Err(ConfigError::MissingCredential { provider: family, variable })
    }
}

impl Default for Config {
    fn default() -> (config: Config)
        ensures
            config@ == (Settings {
                base_url: None,
                provider: "AMRS"@,
                temperature: DEFAULT_TEMPERATURE,
                max_output_tokens: DEFAULT_MAX_OUTPUT_TOKENS,
                routing_mode: RoutingMode::Random,
                models: Seq::empty(),
            }),
    {
        let config = Config {
            base_url: None,
            provider: String::from_str("AMRS"),
            temperature: DEFAULT_TEMPERATURE,
            max_output_tokens: DEFAULT_MAX_OUTPUT_TOKENS,
            routing_mode: RoutingMode::Random,
            models: Vec::new(),
        };
        assert(config@.models =~= Seq::empty());
        config
    }
}

impl Config {
    /// The configuration to start from: no models, random routing, the
    /// backend family AMRS, temperature 0.8 and 1024 output tokens.
    pub fn new() -> (config: Config)
        ensures
            config@ == (Settings {
                base_url: None,
                provider: "AMRS"@,
                temperature: DEFAULT_TEMPERATURE,
                max_output_tokens: DEFAULT_MAX_OUTPUT_TOKENS,
                routing_mode: RoutingMode::Random,
                models: Seq::empty(),
            }),
    {
        Config::default()
    }

    /// The same configuration with the default base URL `url`.
    pub fn base_url(self, url: &str) -> (config: Config)
        ensures
            config@ == (Settings { base_url: Some(url@), ..self@ }),
    {
        let mut config = self;
        config.base_url = Some(String::from_str(url));
        config
    }

    /// The same configuration with the default backend family `provider`.
    pub fn provider(self, provider: &str) -> (config: Config)
        ensures
            config@ == (Settings { provider: provider@, ..self@ }),
    {
        let mut config = self;
        config.provider = String::from_str(provider);
        config
    }

    /// The same configuration with the default temperature `temperature`, in
    /// thousandths.
    pub fn temperature(self, temperature: u32) -> (config: Config)
        ensures
            config@ == (Settings { temperature: temperature, ..self@ }),
    {
        let mut config = self;
        config.temperature = temperature;
        config
    }

    /// The same configuration with the default limit `max_output_tokens` on
    /// output tokens.
    pub fn max_output_tokens(self, max_output_tokens: usize) -> (config: Config)
        ensures
            config@ == (Settings { max_output_tokens: max_output_tokens, ..self@ }),
    {
        let mut config = self;
        config.max_output_tokens = max_output_tokens;
        config
    }

    /// The same configuration with the routing mode `mode`.
    pub fn routing_mode(self, mode: RoutingMode) -> (config: Config)
        ensures
            config@ == (Settings { routing_mode: mode, ..self@ }),
    {
        let mut config = self;
        config.routing_mode = mode;
        config
    }

    /// The same configuration with `model` declared after the others.
    pub fn add_model(self, model: ModelConfig) -> (config: Config)
        ensures
            config@ == (Settings { models: self@.models.push(model@), ..self@ }),
    {
        let mut config = self;
        config.models.push(model);
        assert(config@.models =~= self@.models.push(model@));
        config
    }

    /// Resolves every model against the defaults and holds the result to the
    /// rules. The credentials are looked up in `env`. The resolved
    /// configuration comes back exactly when no rule is broken; else the error
    /// is the fault of the first model that breaks one, by the first rule
    /// that it breaks.
    pub fn build(self, env: &Environment) -> (built: Result<Config, ConfigError>)
        ensures
            match built {
                Ok(config) => config@ == resolve(self@) && config_fault(resolve(self@), env@)
                    is None,
                Err(e) => config_fault(resolve(self@), env@) == Some(e@),
            },
            self@.models.len() == 0 ==> built matches Err(ConfigError::NoModels),
    {
        let config = self.set_defaults();
        match config.validate(env) {
            Ok(()) => Ok(config),
            Err(e) => Err(e),
        }
    }

    /// A copy of the configuration.
    pub fn duplicate(&self) -> (copy: Config)
        ensures
            copy@ == self@,
            copy.models@ == self.models@,
            copy.routing_mode == self.routing_mode,
    {
        let mut models: Vec<ModelConfig> = Vec::new();
        let mut i: usize = 0;
        while i < self.models.len()
            invariant
                0 <= i <= self.models@.len(),
                models@.len() == i,
                forall|j: int| 0 <= j < i ==> #[trigger] models@[j] == self.models@[j],
            decreases self.models@.len() - i,
        {
            models.push(self.models[i].duplicate());
            i = i + 1;
        }
        assert(models@ =~= self.models@);
        let copy = Config {
            base_url: copy_of(&self.base_url),
            provider: self.provider.clone(),
            temperature: self.temperature,
            max_output_tokens: self.max_output_tokens,
            routing_mode: self.routing_mode,
            models,
        };
        assert(copy@.models =~= self@.models);
        copy
    }

    fn set_defaults(self) -> (config: Config)
        ensures
            config@ == resolve(self@),
    {
        let mut models: Vec<ModelConfig> = Vec::new();
        let mut i: usize = 0;
        while i < self.models.len()
            invariant
                0 <= i <= self.models@.len(),
                models@.len() == i,
                forall|j: int|
                    0 <= j < i ==> (#[trigger] models@[j])@ == resolve_model(
                        self.models@[j]@,
                        self@,
                    ),
            decreases self.models@.len() - i,
        {
            let model = self.models[i].resolved(&self);
            models.push(model);
            i = i + 1;
        }
        let config = Config {
            base_url: self.base_url,
            provider: self.provider,
            temperature: self.temperature,
            max_output_tokens: self.max_output_tokens,
            routing_mode: self.routing_mode,
            models,
        };
        assert(config@.models =~= resolve(self@).models);
        config
    }

    fn validate(&self, env: &Environment) -> (checked: Result<(), ConfigError>)
        ensures
            match checked {
                Ok(()) => config_fault(self@, env@) is None,
                Err(e) => config_fault(self@, env@) == Some(e@),
            },
    {
        self.validate_model_config(env)
    }

    fn validate_model_config(&self, env: &Environment) -> (checked: Result<(), ConfigError>)
        ensures
            match checked {
                Ok(()) => config_fault(self@, env@) is None,
                Err(e) => config_fault(self@, env@) == Some(e@),
            },
    {
        if self.models.len() == 0 {
            return Err(ConfigError::NoModels);
        }
        let ghost models = self@.models;
        let mut i: usize = 0;
        while i < self.models.len()
            invariant
                0 <= i <= self.models@.len(),
                models == self@.models,
                first_fault(models.take(i as int), self.routing_mode, env@) is None,
            decreases self.models@.len() - i,
        {
            let checked = self.models[i].check(self.routing_mode, env);
            proof {
                let upto = models.take(i + 1);
                assert(upto.drop_last() =~= models.take(i as int));
                assert(upto.last() == self.models@[i as int]@);
            }
            match checked {
                Ok(()) => {},
                Err(e) => {
                    proof {
                        lemma_first_fault_prefix(models, self.routing_mode, env@, i + 1);
                    }
                    return Err(e);
                },
            }
            i = i + 1;
        }
        assert(models.take(i as int) =~= models);
        Ok(())
    }
}

} // verus!
