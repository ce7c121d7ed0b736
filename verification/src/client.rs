//! The client: it routes each request to a model and lets the model's
//! provider decide on it.

use crate::config::{family_of, Config, Environment, ModelSettings};
use crate::provider::provider::{
    completion_decided, construct_provider, planned_provider, response_decided, AnyProvider,
    Provider, ProviderError, ProviderFault, ProviderSettings,
};
use crate::router::router::{
    construct_router, ids_of, infos_of, is_router_for, sampled, AnyRouter, Router, RouterError,
};
use crate::router::stats::{count_of, recorded, RouterStats};
pub use crate::types::{ChatRole, TextMessage};
use crate::types::{
    ApiError, ChatCompletion, CompletionRequest, Dispatch, Response, ResponseRequest,
};
use vstd::hash_map::StringHashMap;
use vstd::pervasive::unreached;
use vstd::prelude::*;

verus! {

/// The fault of the first model for which no provider can be built, if there
/// is one.
pub open spec fn first_provider_fault(
    models: Seq<ModelSettings>,
    env: Map<Seq<char>, Seq<char>>,
) -> Option<ProviderFault>
    decreases models.len(),
{
    if models.len() == 0 {
        None
    } else {
        match first_provider_fault(models.drop_last(), env) {
            Some(fault) => Some(fault),
            None => match planned_provider(
                models.last(),
                family_of(models.last().provider),
                env,
            ) {
                Ok(_) => None,
                Err(fault) => Some(fault),
            },
        }
    }
}

/// The providers by model identifier after the provider of each model has
/// been installed over `base`, in declaration order. Where two models share
/// an identifier, the later one's provider stays.
pub open spec fn installed(
    base: Map<Seq<char>, ProviderSettings>,
    models: Seq<ModelSettings>,
    env: Map<Seq<char>, Seq<char>>,
) -> Map<Seq<char>, ProviderSettings>
    decreases models.len(),
{
    if models.len() == 0 {
        base
    } else {
        let before = installed(base, models.drop_last(), env);
        match planned_provider(models.last(), family_of(models.last().provider), env) {
            Ok(provider) => before.insert(models.last().id, provider),
            Err(_) => before,
        }
    }
}

/// A fault among the first `k` models is the fault of the whole list.
pub proof fn lemma_first_provider_fault_prefix(
    models: Seq<ModelSettings>,
    env: Map<Seq<char>, Seq<char>>,
    k: int,
)
    requires
        0 <= k <= models.len(),
        first_provider_fault(models.take(k), env) is Some,
    ensures
        first_provider_fault(models, env) == first_provider_fault(models.take(k), env),
    decreases models.len(),
{
    if k == models.len() {
        assert(models.take(k) =~= models);
    } else {
        assert(models.drop_last().take(k) =~= models.take(k));
        lemma_first_provider_fault_prefix(models.drop_last(), env, k);
    }
}

/// What the providers of a map hold, as mathematical values.
pub open spec fn settings_of(providers: Map<Seq<char>, AnyProvider>) -> Map<
    Seq<char>,
    ProviderSettings,
> {
    Map::new(|id: Seq<char>| providers.contains_key(id), |id: Seq<char>| providers[id]@)
}

/// Installing providers over `base` gives `base` overlaid with what
/// installing them over nothing gives.
pub proof fn lemma_installed_over(
    base: Map<Seq<char>, ProviderSettings>,
    models: Seq<ModelSettings>,
    env: Map<Seq<char>, Seq<char>>,
)
    ensures
        installed(base, models, env) == base.union_prefer_right(
            installed(Map::empty(), models, env),
        ),
    decreases models.len(),
{
    if models.len() > 0 {
        lemma_installed_over(base, models.drop_last(), env);
    }
    assert(installed(base, models, env) =~= base.union_prefer_right(
        installed(Map::empty(), models, env),
    ));
}

/// The gateway's client.
pub struct Client {
    config: Config,
    router_tracker: Option<RouterStats>,
    router: AnyRouter,
    providers: StringHashMap<AnyProvider>,
    built: bool,
}

impl Client {
    /// The configuration that the client was made from.
    pub closed spec fn config(&self) -> Config {
        self.config
    }

    /// The client's router.
    pub closed spec fn router(&self) -> AnyRouter {
        self.router
    }

    /// The counts of the router tracker, where it is enabled.
    pub closed spec fn tracker_counts(&self) -> Option<Map<Seq<char>, usize>> {
        match self.router_tracker {
            Some(stats) => Some(stats.counts()),
            None => None,
        }
    }

    /// The installed providers, by model identifier.
    pub closed spec fn provider_settings(&self) -> Map<Seq<char>, ProviderSettings> {
        settings_of(self.providers@)
    }

    /// Whether the providers have been built, so that requests can be
    /// dispatched.
    pub closed spec fn is_built(&self) -> bool {
        self.built
    }

    /// The invariant: the router chooses among the configuration's models,
    /// and once the providers are built, each of these models has one.
    pub closed spec fn well_formed(&self) -> bool {
        &&& self.router.wf()
        &&& self.router.model_ids() == ids_of(infos_of(self.config.models@))
        &&& self.built ==> forall|id: Seq<char>| #[trigger]
            self.router.model_ids().contains(id) ==> self.providers@.contains_key(id)
    }

    /// A client for `config`, with the router of the configuration's mode,
    /// without tracker and without providers. It fails where no router can be
    /// built for the configuration's models.
    pub fn new(config: &Config) -> (made: Result<Client, RouterError>)
        ensures
            match made {
                Ok(client) => {
                    &&& client.well_formed()
                    &&& !client.is_built()
                    &&& client.config()@ == config@
                    &&& client.tracker_counts() is None
                    &&& client.provider_settings() == Map::<Seq<char>, ProviderSettings>::empty()
                    &&& is_router_for(
                        config.routing_mode,
                        config.models@,
                        Ok::<AnyRouter, RouterError>(client.router()),
                    )
                },
                Err(e) => is_router_for(
                    config.routing_mode,
                    config.models@,
                    Err::<AnyRouter, RouterError>(e),
                ),
            },
    {
        let own = config.duplicate();
        let models = config.duplicate().models;
        match construct_router(config.routing_mode, models) {
            Ok(router) => {
                let client = Client {
                    config: own,
                    router_tracker: None,
                    router,
                    providers: StringHashMap::new(),
                    built: false,
                };
                assert(client.provider_settings() =~= Map::<Seq<char>, ProviderSettings>::empty());
                Ok(client)
            },
            Err(e) => Err(e),
        }
    }

    /// Starts counting the selections per model, unless they are counted
    /// already.
    pub fn enable_router_tracker(&mut self)
        ensures
            final(self).tracker_counts() == match old(self).tracker_counts() {
                Some(counts) => Some(counts),
                None => Some(Map::<Seq<char>, usize>::empty()),
            },
            final(self).config() == old(self).config(),
            final(self).router() == old(self).router(),
            final(self).provider_settings() == old(self).provider_settings(),
            final(self).is_built() == old(self).is_built(),
            old(self).well_formed() ==> final(self).well_formed(),
    {
        if self.router_tracker.is_none() {
            self.router_tracker = Some(RouterStats::default());
        }
    }

    /// How often the model `model_id` has been selected since the tracker was
    /// enabled; nothing where it is not enabled.
    pub fn requests(&self, model_id: &String) -> (count: Option<usize>)
        ensures
            count == match self.tracker_counts() {
                Some(counts) => Some(count_of(counts, model_id@) as usize),
                None => None,
            },
    {
        match &self.router_tracker {
            Some(stats) => Some(stats.requests(model_id)),
            None => None,
        }
    }

    /// Whether the providers have been built.
    pub fn ready(&self) -> (built: bool)
        ensures
            built == self.is_built(),
    {
        self.built
    }

    /// Builds the provider of every model of the configuration and installs
    /// it under the model's identifier. The credentials are looked up in `env`.
    /// Where a provider cannot be built, the error is that of the first such
    /// model and the client stays as it was.
    pub fn build(&mut self, env: &Environment) -> (built: Result<(), ProviderError>)
        requires
            old(self).well_formed(),
        ensures
            final(self).well_formed(),
            final(self).config() == old(self).config(),
            final(self).router() == old(self).router(),
            final(self).tracker_counts() == old(self).tracker_counts(),
            match built {
                Ok(()) => {
                    &&& first_provider_fault(old(self).config()@.models, env@) is None
                    &&& final(self).is_built()
                    &&& final(self).provider_settings() == installed(
                        old(self).provider_settings(),
                        old(self).config()@.models,
                        env@,
                    )
                },
                Err(e) => {
                    &&& first_provider_fault(old(self).config()@.models, env@) == Some(e@)
                    &&& final(self).is_built() == old(self).is_built()
                    &&& final(self).provider_settings() == old(self).provider_settings()
                },
            },
    {
        let ghost models = self.config@.models;
        let n = self.config.models.len();
        let mut fresh: StringHashMap<AnyProvider> = StringHashMap::new();
        assert(settings_of(fresh@) =~= Map::<Seq<char>, ProviderSettings>::empty());
        let mut i: usize = 0;
        while i < n
            invariant
                *self == *old(self),
                old(self).well_formed(),
                models == self.config@.models,
                n == self.config.models@.len(),
                0 <= i <= n,
                first_provider_fault(models.take(i as int), env@) is None,
                settings_of(fresh@) == installed(Map::empty(), models.take(i as int), env@),
                forall|j: int|
                    0 <= j < i ==> fresh@.contains_key(#[trigger] self.config.models@[j].id@),
            decreases n - i,
        {
            let ghost settings_before = settings_of(fresh@);
            let made = construct_provider(self.config.models[i].duplicate(), env);
            proof {
                let upto = models.take(i + 1);
                assert(upto.drop_last() =~= models.take(i as int));
                assert(upto.last() == self.config.models@[i as int]@);
            }
            match made {
                Ok(provider) => {
                    let ghost provider_view = provider@;
                    fresh.insert(self.config.models[i].id.clone(), provider);
                    assert(settings_of(fresh@) =~= settings_before.insert(
                        self.config.models@[i as int].id@,
                        provider_view,
                    ));
                },
                Err(e) => {
                    proof {
                        lemma_first_provider_fault_prefix(models, env@, i + 1);
                    }
                    return Err(e);
                },
            }
            i = i + 1;
        }
        assert(models.take(n as int) =~= models);
        let ghost fresh_settings = settings_of(fresh@);
        self.providers.union_prefer_right(fresh);
        self.built = true;
        proof {
            lemma_installed_over(old(self).provider_settings(), models, env@);
            assert(self.provider_settings() =~= old(self).provider_settings().union_prefer_right(
                fresh_settings,
            ));
            let ids = ids_of(infos_of(self.config.models@));
            assert forall|id: Seq<char>| #[trigger]
                self.router.model_ids().contains(id) implies self.providers@.contains_key(id) by {
                let j = choose|j: int| 0 <= j < ids.len() && ids[j] == id;
                assert(self.config.models@[j].id@ == id);
            }
        }
        Ok(())
    }

    /// Selects the model for the next request and, where the tracker is
    /// enabled, records the selection.
    pub fn select_model(&mut self) -> (id: String)
        requires
            old(self).well_formed(),
        ensures
            final(self).well_formed(),
            routed(*old(self), *final(self), id@),
    {
        let id = self.router.sample();
        match &mut self.router_tracker {
            Some(stats) => {
                stats.increment_request(&id);
            },
            None => {},
        }
        id
    }

    /// Dispatches a request for a response: the router selects a model, the
    /// tracker records the selection where it is enabled, and the model's
    /// provider decides on the request. Whatever the provider decides, the
    /// selection has been made and recorded. A request that names a model is
    /// always refused.
    pub fn create_response(&mut self, request: &ResponseRequest) -> (decided: Result<
        Dispatch<Response>,
        ApiError,
    >)
        requires
            old(self).well_formed(),
            old(self).is_built(),
        ensures
            final(self).well_formed(),
            exists|id: Seq<char>|
                {
                    &&& #[trigger] routed(*old(self), *final(self), id)
                    &&& old(self).provider_settings().contains_key(id)
                    &&& response_decided(old(self).provider_settings()[id], *request, decided)
                },
            request.model is Some ==> decided is Err,
    {
        let id = self.select_model();
        match self.providers.get(id.as_str()) {
            Some(provider) => {
                let decided = provider.create_response(request);
                assert(routed(*old(self), *self, id@));
                decided
            },
            None => unreached(),
        }
    }

    /// Dispatches a request for a chat completion: the router selects a
    /// model, the tracker records the selection where it is enabled, and the
    /// model's provider decides on the request. A request that names a model
    /// is always refused.
    pub fn create_completion(&mut self, request: &CompletionRequest) -> (decided: Result<
        Dispatch<ChatCompletion>,
        ApiError,
    >)
        requires
            old(self).well_formed(),
            old(self).is_built(),
        ensures
            final(self).well_formed(),
            exists|id: Seq<char>|
                {
                    &&& #[trigger] routed(*old(self), *final(self), id)
                    &&& old(self).provider_settings().contains_key(id)
                    &&& completion_decided(old(self).provider_settings()[id], *request, decided)
                },
            request.model is Some ==> decided is Err,
    {
        let id = self.select_model();
        match self.providers.get(id.as_str()) {
            Some(provider) => {
                let decided = provider.create_completion(request);
                assert(routed(*old(self), *self, id@));
                decided
            },
            None => unreached(),
        }
    }
}

/// One selection leads from the client `before` to the client `after` and
/// selects the model `id`: the router has made the selection, the tracker has
/// recorded it where it is enabled, and nothing else has changed.
pub open spec fn routed(before: Client, after: Client, id: Seq<char>) -> bool {
    &&& sampled(before.router(), after.router(), id)
    &&& after.tracker_counts() == match before.tracker_counts() {
        Some(counts) => Some(recorded(counts, id)),
        None => None,
    }
    &&& after.config() == before.config()
    &&& after.provider_settings() == before.provider_settings()
    &&& after.is_built() == before.is_built()
}

} // verus!
