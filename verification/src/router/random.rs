//! Uniform random routing.

use crate::router::router::{ids_of, ModelInfo, Router, RouterError};
use vstd::prelude::*;

verus! {

/// Draws a number below `n` from the thread's random number generator.
///
/// Trusted: the body calls `rand::random_range` on the range `0..n`. The crate
/// samples that range uniformly and refuses an empty one by a panic, so the
/// contract asks for `n > 0` and claims only that the draw lies below `n`.
/// Which number comes is left open. The generator is seeded from the operating
/// system on a thread's first draw, and `rand` panics if that source fails.
#[verifier::external_body]
fn random_below(n: usize) -> (draw: usize)
    requires
        n > 0,
    ensures
        draw < n,
{
    rand::random_range(0..n)
}

/// A router that selects each model with the same probability, whatever its
/// weight.
pub struct RandomRouter {
    models: Vec<ModelInfo>,
}

impl RandomRouter {
    /// The models' identifiers, in declaration order.
    pub closed spec fn ids(&self) -> Seq<Seq<char>> {
        ids_of(self.models@)
    }

    /// The invariant: there is a model to choose.
    pub closed spec fn well_formed(&self) -> bool {
        self.models@.len() > 0
    }

    /// Builds the router for `models`. It fails only when there is no model.
    pub fn new(models: Vec<ModelInfo>) -> (made: Result<RandomRouter, RouterError>)
        ensures
            match made {
                Ok(router) => {
                    &&& models@.len() > 0
                    &&& router.well_formed()
                    &&& router.ids() == ids_of(models@)
                },
                Err(RouterError::NoModels) => models@.len() == 0,
                Err(_) => false,
            },
    {
        if models.len() == 0 {
            return Err(RouterError::NoModels);
        }
        Ok(RandomRouter { models })
    }

    /// The number of models.
    pub fn len(&self) -> (n: usize)
        ensures
            n == self.ids().len(),
    {
        self.models.len()
    }

    /// The identifier of the model that the draw `draw` selects: the one at
    /// that position in declaration order. Each model has exactly one draw
    /// below `len()`, so a uniform draw selects every model with the same
    /// probability.
    pub fn select(&self, draw: usize) -> (id: &String)
        requires
            draw < self.ids().len(),
        ensures
            id@ == self.ids()[draw as int],
    {
        &self.models[draw].name
    }
}

impl Router for RandomRouter {
    open spec fn wf(&self) -> bool {
        self.well_formed()
    }

    open spec fn model_ids(&self) -> Seq<Seq<char>> {
        self.ids()
    }

    fn name(&self) -> (name: &'static str)
        ensures
            name@ == "RandomRouter"@,
    {
        "RandomRouter"
    }

    /// Selects the model of a fresh uniform draw. The router itself does not
    /// change.
    fn sample(&mut self) -> (id: String)
        ensures
            *final(self) == *old(self),
    {
        let draw = random_below(self.models.len());
        self.select(draw).clone()
    }
}

} // verus!
