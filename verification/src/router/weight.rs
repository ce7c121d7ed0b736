//! Smooth weighted round robin routing.

use crate::router::router::{
    first_non_positive, ids_of, weights_of, ModelInfo, Router, RouterError,
};
use crate::router::schedule::{
    all_positive, credits_after, first_max, lemma_credits, lemma_entry_at_most,
    lemma_entry_at_most_sum, lemma_first_max, lemma_sum_at_least, lemma_window_fairness, pick,
    selection, step, sum, times_selected, topped_up,
};
use vstd::prelude::*;

verus! {

/// A router that selects models in proportion to their weights, spreading the
/// selections of each model evenly instead of serving it in bursts.
pub struct WeightedRouter {
    models: Vec<ModelInfo>,
    /// The credit of each model.
    credits: Vec<i64>,
    /// The sum of the weights.
    total: i64,
    /// The number of selections made so far.
    rounds: Ghost<nat>,
}

/// The sum of the first `n` weights of `models`.
spec fn weight_prefix(models: Seq<ModelInfo>, n: int) -> int {
    sum(weights_of(models).take(n))
}

proof fn lemma_weight_prefix_step(models: Seq<ModelInfo>, n: int)
    requires
        0 <= n < models.len(),
    ensures
        weight_prefix(models, n + 1) == weight_prefix(models, n) + models[n].weight,
{
    let weights = weights_of(models);
    assert(weights.take(n + 1).drop_last() =~= weights.take(n));
}

impl WeightedRouter {
    /// The models' weights, in declaration order.
    pub closed spec fn weights(&self) -> Seq<int> {
        weights_of(self.models@)
    }

    /// The models' identifiers, in declaration order.
    pub closed spec fn ids(&self) -> Seq<Seq<char>> {
        ids_of(self.models@)
    }

    /// How many selections the router has made.
    pub closed spec fn rounds(&self) -> nat {
        self.rounds@
    }

    /// The invariant: there is a model, all weights are positive, and the
    /// credits are those of smooth weighted round robin after `rounds()`
    /// selections.
    pub closed spec fn well_formed(&self) -> bool {
        &&& self.models@.len() > 0
        &&& all_positive(self.weights())
        &&& self.total == sum(self.weights())
        &&& self.models@.len() * self.total <= i64::MAX
        &&& self.credits@.len() == self.models@.len()
        &&& self.credits@.map_values(|c: i64| c as int) == credits_after(
            self.weights(),
            self.rounds@,
        )
    }

    /// Builds the router for `models`. It fails when there is no model, when
    /// a weight is not positive (naming the first such model), and when the
    /// number of models times the sum of their weights exceeds `i64::MAX`.
    pub fn new(models: Vec<ModelInfo>) -> (made: Result<WeightedRouter, RouterError>)
        ensures
            match made {
                Ok(router) => {
                    &&& models@.len() > 0
                    &&& all_positive(weights_of(models@))
                    &&& models@.len() * sum(weights_of(models@)) <= i64::MAX
                    &&& router.well_formed()
                    &&& router.rounds() == 0
                    &&& router.weights() == weights_of(models@)
                    &&& router.ids() == ids_of(models@)
                },
                Err(RouterError::NoModels) => models@.len() == 0,
                Err(RouterError::NonPositiveWeight { model }) => exists|i: int|
                    #![trigger models@[i]]
                    first_non_positive(weights_of(models@), i) && model@ == models@[i].name@,
                Err(RouterError::WeightsTooLarge) => {
                    &&& models@.len() > 0
                    &&& all_positive(weights_of(models@))
                    &&& models@.len() * sum(weights_of(models@)) > i64::MAX
                },
            },
    {
        let n = models.len();
        if n == 0 {
            return Err(RouterError::NoModels);
        }
        let ghost weights = weights_of(models@);
        let mut total: i64 = 0;
        let mut credits: Vec<i64> = Vec::new();
        let mut too_large = false;
        let mut i: usize = 0;
        while i < n
            invariant
                n == models@.len(),
                weights == weights_of(models@),
                0 <= i <= n,
                forall|j: int| 0 <= j < i ==> #[trigger] weights[j] > 0,
                credits@.len() == i,
                forall|j: int| 0 <= j < i ==> #[trigger] credits@[j] == 0,
                !too_large ==> total == weight_prefix(models@, i as int),
                too_large ==> weight_prefix(models@, i as int) > i64::MAX,
                0 <= total,
            decreases n - i,
        {
            let weight = models[i].weight;
            if weight <= 0 {
                assert(first_non_positive(weights, i as int));
                return Err(RouterError::NonPositiveWeight { model: models[i].name.clone() });
            }
            proof {
                lemma_weight_prefix_step(models@, i as int);
            }
            if !too_large {
                if total > i64::MAX - (weight as i64) {
                    too_large = true;
                } else {
                    total = total + (weight as i64);
                }
            }
            credits.push(0);
            i = i + 1;
        }
        proof {
            assert(weights.take(n as int) =~= weights);
            assert(all_positive(weights));
            lemma_sum_at_least(weights, 1);
        }
        if too_large {
            proof {
                assert(n * sum(weights) >= sum(weights)) by (nonlinear_arith)
                    requires
                        n >= 1,
                        sum(weights) >= 0,
                ;
            }
            return Err(RouterError::WeightsTooLarge);
        }
        assert((n as u128) * (total as u128) <= u128::MAX) by (nonlinear_arith)
            requires
                0 <= n <= u64::MAX,
                0 <= total <= i64::MAX,
        ;
        if (n as u128) * (total as u128) > (i64::MAX as u128) {
            return Err(RouterError::WeightsTooLarge);
        }
        let router = WeightedRouter { models, credits, total, rounds: Ghost(0) };
        proof {
            assert(router.credits@.map_values(|c: i64| c as int) =~= credits_after(weights, 0));
        }
        Ok(router)
    }

    /// The number of models.
    pub fn len(&self) -> (n: usize)
        ensures
            n == self.ids().len(),
            n == self.weights().len(),
    {
        self.models.len()
    }

    /// Makes one selection and returns the position of the selected model in
    /// declaration order: the one that smooth weighted round robin selects in
    /// round number `rounds()`.
    pub fn advance(&mut self) -> (chosen: usize)
        requires
            old(self).well_formed(),
        ensures
            final(self).well_formed(),
            final(self).weights() == old(self).weights(),
            final(self).ids() == old(self).ids(),
            final(self).rounds() == old(self).rounds() + 1,
            chosen < old(self).ids().len(),
            chosen == selection(old(self).weights(), old(self).rounds()),
    {
        let n = self.models.len();
        let ghost weights = self.weights();
        let ghost before = credits_after(weights, self.rounds@);
        let ghost raised = topped_up(before, weights);
        proof {
            lemma_credits(weights, self.rounds@);
            lemma_sum_at_least(weights, 1);
            assert((n - 1) * (self.total - 1) + self.total <= n * self.total) by (nonlinear_arith)
                requires
                    n >= 1,
                    self.total >= 1,
            ;
            assert forall|j: int| 0 <= j < n implies #[trigger] before[j] + weights[j]
                <= i64::MAX by {
                lemma_entry_at_most(before, self.total as int, j);
                lemma_entry_at_most_sum(weights, j);
            }
        }
        let mut best: usize = 0;
        let mut i: usize = 0;
        while i < n
            invariant
                n == self.models@.len(),
                n == self.credits@.len(),
                n > 0,
                self.models == old(self).models,
                self.total == old(self).total,
                self.rounds == old(self).rounds,
                weights == weights_of(self.models@),
                all_positive(weights),
                self.total == sum(weights),
                before.len() == n,
                raised == topped_up(before, weights),
                forall|j: int| 0 <= j < n ==> -self.total < #[trigger] before[j],
                forall|j: int| 0 <= j < n ==> #[trigger] before[j] + weights[j] <= i64::MAX,
                0 <= i <= n,
                forall|j: int| 0 <= j < i ==> #[trigger] self.credits@[j] == raised[j],
                forall|j: int| i <= j < n ==> #[trigger] self.credits@[j] == before[j],
                i == 0 ==> best == 0,
                i > 0 ==> best < i && best == first_max(raised, i as int),
            decreases n - i,
        {
            let weight = self.models[i].weight;
            assert(weights[i as int] == weight);
            assert(raised[i as int] == before[i as int] + weights[i as int]);
            let raised_credit = self.credits[i] + (weight as i64);
            self.credits.set(i, raised_credit);
            if i > 0 && raised_credit > self.credits[best] {
                best = i;
            }
            i = i + 1;
        }
        proof {
            lemma_first_max(raised, n as int);
            assert(best == pick(before, weights));
            lemma_credits(weights, (self.rounds@ + 1) as nat);
            assert(credits_after(weights, (self.rounds@ + 1) as nat) == step(before, weights));
            assert(step(before, weights)[best as int] == raised[best as int] - self.total);
        }
        let charged = self.credits[best] - self.total;
        self.credits.set(best, charged);
        proof {
            self.rounds = Ghost((self.rounds@ + 1) as nat);
            assert(self.credits@.map_values(|c: i64| c as int) =~= step(before, weights));
        }
        best
    }

    /// Whatever the router has selected so far, its next selections, as many
    /// as the weights sum to, fall on each model exactly as often as the
    /// model's weight says.
    pub proof fn lemma_next_window_is_fair(&self, i: int)
        requires
            self.well_formed(),
            0 <= i < self.weights().len(),
        ensures
            sum(self.weights()) > 0,
            times_selected(
                self.weights(),
                i,
                self.rounds(),
                (self.rounds() + sum(self.weights())) as nat,
            ) == self.weights()[i],
    {
        lemma_window_fairness(self.weights(), self.rounds(), i);
    }

    /// The identifier of the model at position `index` in declaration order.
    pub fn model_id(&self, index: usize) -> (id: &String)
        requires
            index < self.ids().len(),
        ensures
            id@ == self.ids()[index as int],
    {
        &self.models[index].name
    }
}

impl Router for WeightedRouter {
    open spec fn wf(&self) -> bool {
        self.well_formed()
    }

    open spec fn model_ids(&self) -> Seq<Seq<char>> {
        self.ids()
    }

    fn name(&self) -> (name: &'static str)
        ensures
            name@ == "WeightedRoundRobinRouter"@,
    {
        "WeightedRoundRobinRouter"
    }

    /// Selects the model of round number `rounds()` of smooth weighted round
    /// robin.
    fn sample(&mut self) -> (id: String)
        ensures
            final(self).weights() == old(self).weights(),
            final(self).rounds() == old(self).rounds() + 1,
            id@ == old(self).ids()[selection(old(self).weights(), old(self).rounds())],
    {
        let chosen = self.advance();
        self.model_id(chosen).clone()
    }
}

} // verus!
