//! What every router offers, and what routers are built from.

use crate::config::{ModelConfig, RoutingMode};
use crate::router::random::RandomRouter;
use crate::router::schedule::{all_positive, selection, sum};
use crate::router::weight::WeightedRouter;
use vstd::prelude::*;
use vstd::string::StringExecFns;

verus! {

/// What a router knows of one model: its identifier and its sampling weight.
#[derive(Debug, Clone)]
pub struct ModelInfo {
    pub name: String,
    pub weight: i32,
}

/// The identifiers of `models`, in declaration order.
pub open spec fn ids_of(models: Seq<ModelInfo>) -> Seq<Seq<char>> {
    Seq::new(models.len(), |i: int| models[i].name@)
}

/// The weights of `models`, in declaration order.
pub open spec fn weights_of(models: Seq<ModelInfo>) -> Seq<int> {
    Seq::new(models.len(), |i: int| models[i].weight as int)
}

/// `i` is the first model whose weight is not positive.
pub open spec fn first_non_positive(weights: Seq<int>, i: int) -> bool {
    &&& 0 <= i < weights.len()
    &&& weights[i] <= 0
    &&& forall|j: int| 0 <= j < i ==> weights[j] > 0
}

/// Why a router could not be built.
#[derive(Debug, Clone)]
pub enum RouterError {
    /// There is no model to choose among.
    NoModels,
    /// The model of this name has a weight that is not positive, which
    /// weighted routing cannot use.
    NonPositiveWeight { model: String },
    /// The weights are so large that the credits of weighted routing might
    /// not fit the machine's integers.
    WeightsTooLarge,
}

impl RouterError {
    /// The text of the error's message.
    pub open spec fn message_text(self) -> Seq<char> {
        match self {
            RouterError::NoModels => "At least one model must be configured."@,
            RouterError::NonPositiveWeight { model } => "Model '"@ + model@
                + "' weight must be positive in Weighted routing mode."@,
            RouterError::WeightsTooLarge => "The model weights are too large."@,
        }
    }

    /// The error's message for the caller.
    pub fn message(&self) -> (text: String)
        ensures
            text@ == self.message_text(),
    {
        match self {
            RouterError::NoModels => String::from_str("At least one model must be configured."),
            RouterError::NonPositiveWeight { model } => {
                let text = String::from_str("Model '");
                let text = text.concat(model.as_str());
                text.concat("' weight must be positive in Weighted routing mode.")
            },
            RouterError::WeightsTooLarge => String::from_str("The model weights are too large."),
        }
    }
}

/// A router selects, for each request, the model that serves it.
pub trait Router {
    /// The router's invariant. Every router that this library builds has it.
    spec fn wf(&self) -> bool;

    /// The identifiers of the models that the router chooses among, in
    /// declaration order.
    spec fn model_ids(&self) -> Seq<Seq<char>>;

    /// The name of the routing policy.
    fn name(&self) -> &'static str;

    /// Selects the model for the next request and returns its identifier.
    /// The router keeps its models; only its own bookkeeping moves on.
    fn sample(&mut self) -> (id: String)
        requires
            old(self).wf(),
        ensures
            final(self).wf(),
            final(self).model_ids() == old(self).model_ids(),
            old(self).model_ids().contains(id@),
    ;
}

/// Any router of this library.
pub enum AnyRouter {
    Random(RandomRouter),
    Weighted(WeightedRouter),
}

impl Router for AnyRouter {
    open spec fn wf(&self) -> bool {
        match self {
            AnyRouter::Random(r) => r.wf(),
            AnyRouter::Weighted(r) => r.wf(),
        }
    }

    open spec fn model_ids(&self) -> Seq<Seq<char>> {
        match self {
            AnyRouter::Random(r) => r.model_ids(),
            AnyRouter::Weighted(r) => r.model_ids(),
        }
    }

    fn name(&self) -> (name: &'static str)
        ensures
            self is Random ==> name@ == "RandomRouter"@,
            self is Weighted ==> name@ == "WeightedRoundRobinRouter"@,
    {
        match self {
            AnyRouter::Random(r) => r.name(),
            AnyRouter::Weighted(r) => r.name(),
        }
    }

    /// Selects as the router inside does.
    fn sample(&mut self) -> (id: String)
        ensures
            sampled(*old(self), *final(self), id@),
    {
        match self {
            AnyRouter::Random(r) => r.sample(),
            AnyRouter::Weighted(r) => r.sample(),
        }
    }
}

/// One selection leads from the router `before` to the router `after` and
/// selects the model `id`. A random router stays as it is and may select any
/// of its models. A weighted router selects the model of its next round of
/// smooth weighted round robin and has one round more behind it.
pub open spec fn sampled(before: AnyRouter, after: AnyRouter, id: Seq<char>) -> bool {
    &&& after.wf()
    &&& after.model_ids() == before.model_ids()
    &&& before.model_ids().contains(id)
    &&& match before {
        AnyRouter::Random(_) => after == before,
        AnyRouter::Weighted(was) => {
            &&& after matches AnyRouter::Weighted(now)
            &&& now.weights() == was.weights()
            &&& now.rounds() == was.rounds() + 1
            &&& id == was.ids()[selection(was.weights(), was.rounds())]
        },
    }
}

/// What a router needs to know of each declared model.
pub open spec fn infos_of(models: Seq<ModelConfig>) -> Seq<ModelInfo> {
    Seq::new(models.len(), |i: int| ModelInfo { name: models[i].id, weight: models[i].weight })
}

/// `made` is what building a router of the mode `mode` for `models` gives: a
/// router of that mode over the models' identifiers and weights, fresh, or the
/// reason why there can be none. A router needs at least one model; a weighted
/// one needs positive weights (the error names the first model without one),
/// and weights whose sum times the number of models does not exceed
/// `i64::MAX`.
pub open spec fn is_router_for(
    mode: RoutingMode,
    models: Seq<ModelConfig>,
    made: Result<AnyRouter, RouterError>,
) -> bool {
    match made {
        Ok(AnyRouter::Random(router)) => {
            &&& mode == RoutingMode::Random
            &&& models.len() > 0
            &&& router.well_formed()
            &&& router.ids() == ids_of(infos_of(models))
        },
        Ok(AnyRouter::Weighted(router)) => {
            &&& mode == RoutingMode::Weighted
            &&& models.len() > 0
            &&& all_positive(weights_of(infos_of(models)))
            &&& models.len() * sum(weights_of(infos_of(models))) <= i64::MAX
            &&& router.well_formed()
            &&& router.rounds() == 0
            &&& router.weights() == weights_of(infos_of(models))
            &&& router.ids() == ids_of(infos_of(models))
        },
        Err(RouterError::NoModels) => models.len() == 0,
        Err(RouterError::NonPositiveWeight { model }) => mode == RoutingMode::Weighted
            && models.len() > 0 && exists|i: int|
            #![trigger models[i]]
            first_non_positive(weights_of(infos_of(models)), i) && model@ == models[i].id@,
        Err(RouterError::WeightsTooLarge) => {
            &&& mode == RoutingMode::Weighted
            &&& models.len() > 0
            &&& all_positive(weights_of(infos_of(models)))
            &&& models.len() * sum(weights_of(infos_of(models))) > i64::MAX
        },
    }
}

/// Builds the router of the mode `mode` for the declared models.
pub fn construct_router(mode: RoutingMode, models: Vec<ModelConfig>) -> (made: Result<
    AnyRouter,
    RouterError,
>)
    ensures
        is_router_for(mode, models@, made),
{
    let mut model_infos: Vec<ModelInfo> = Vec::new();
    let mut i: usize = 0;
    while i < models.len()
        invariant
            0 <= i <= models@.len(),
            model_infos@.len() == i,
            forall|j: int|
                0 <= j < i ==> #[trigger] model_infos@[j] == infos_of(models@)[j],
        decreases models@.len() - i,
    {
        model_infos.push(ModelInfo { name: models[i].id.clone(), weight: models[i].weight });
        i = i + 1;
    }
    assert(model_infos@ =~= infos_of(models@));
    match mode {
        RoutingMode::Random => match RandomRouter::new(model_infos) {
            Ok(router) => Ok(AnyRouter::Random(router)),
            Err(e) => Err(e),
        },
        RoutingMode::Weighted => match WeightedRouter::new(model_infos) {
            Ok(router) => Ok(AnyRouter::Weighted(router)),
            Err(e) => {
                proof {
                    if e is NonPositiveWeight {
                        let model = e->model;
                        let k = choose|k: int|
                            #![trigger model_infos@[k]]
                            first_non_positive(weights_of(model_infos@), k) && model@
                                == model_infos@[k].name@;
                        assert(model@ == models@[k].id@);
                    }
                }
                Err(e)
            },
        },
    }
}

} // verus!
