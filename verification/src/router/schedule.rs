//! The mathematics of smooth weighted round robin.
//!
//! Every model carries a credit that starts at zero. One round tops every
//! credit up by the model's weight, selects the first model whose credit is
//! greatest and charges it the sum of all weights. The functions here describe
//! that process over mathematical sequences; the lemmas show that the credits
//! stay bounded and that the selections repeat with a period of the total
//! weight, in which every model is selected exactly as often as its weight says.

use vstd::prelude::*;

verus! {

/// The sum of the entries of `s`.
pub open spec fn sum(s: Seq<int>) -> int
    decreases s.len(),
{
    if s.len() == 0 {
        0
    } else {
        sum(s.drop_last()) + s.last()
    }
}

/// Every weight is a positive integer.
pub open spec fn all_positive(weights: Seq<int>) -> bool {
    forall|i: int| 0 <= i < weights.len() ==> weights[i] > 0
}

/// The index of the first greatest entry among the first `n` entries of `s`.
pub open spec fn first_max(s: Seq<int>, n: int) -> int
    decreases n,
{
    if n <= 1 {
        0
    } else {
        let m = first_max(s, n - 1);
        if s[n - 1] > s[m] {
            n - 1
        } else {
            m
        }
    }
}

/// The credits after each one has been topped up by its weight.
pub open spec fn topped_up(credits: Seq<int>, weights: Seq<int>) -> Seq<int> {
    Seq::new(credits.len(), |i: int| credits[i] + weights[i])
}

/// The model that one round selects: the first one whose topped-up credit is
/// greatest.
pub open spec fn pick(credits: Seq<int>, weights: Seq<int>) -> int {
    first_max(topped_up(credits, weights), credits.len() as int)
}

/// The credits after one round.
pub open spec fn step(credits: Seq<int>, weights: Seq<int>) -> Seq<int> {
    let raised = topped_up(credits, weights);
    let chosen = pick(credits, weights);
    raised.update(chosen, raised[chosen] - sum(weights))
}

/// The credits after `rounds` rounds, starting from zero.
pub open spec fn credits_after(weights: Seq<int>, rounds: nat) -> Seq<int>
    decreases rounds,
{
    if rounds == 0 {
        Seq::new(weights.len(), |i: int| 0int)
    } else {
        step(credits_after(weights, (rounds - 1) as nat), weights)
    }
}

/// The model selected by round number `round`, counting from zero.
pub open spec fn selection(weights: Seq<int>, round: nat) -> int {
    pick(credits_after(weights, round), weights)
}

/// How often model `i` is selected in the rounds `from, .., to - 1`.
pub open spec fn times_selected(weights: Seq<int>, i: int, from: nat, to: nat) -> nat
    decreases to,
{
    if to <= from {
        0
    } else {
        let earlier = times_selected(weights, i, from, (to - 1) as nat);
        if selection(weights, (to - 1) as nat) == i {
            earlier + 1
        } else {
            earlier
        }
    }
}

/// `first_max` returns an index below `n` whose entry is at least every entry
/// before `n` and strictly greater than every entry before itself.
pub proof fn lemma_first_max(s: Seq<int>, n: int)
    requires
        1 <= n <= s.len(),
    ensures
        0 <= first_max(s, n) < n,
        forall|j: int| 0 <= j < n ==> #[trigger] s[j] <= s[first_max(s, n)],
        forall|j: int| 0 <= j < first_max(s, n) ==> #[trigger] s[j] < s[first_max(s, n)],
    decreases n,
{
    if n > 1 {
        lemma_first_max(s, n - 1);
    }
}


/// A sequence of zeros sums to zero.
pub proof fn lemma_sum_zeros(n: nat)
    ensures
        sum(Seq::new(n, |i: int| 0int)) == 0,
    decreases n,
{
    let z = Seq::new(n, |i: int| 0int);
    if n > 0 {
        lemma_sum_zeros((n - 1) as nat);
        assert(z.drop_last() =~= Seq::new((n - 1) as nat, |i: int| 0int));
    }
}

/// Topping up adds the sum of the weights to the sum of the credits.
pub proof fn lemma_sum_topped_up(credits: Seq<int>, weights: Seq<int>)
    requires
        credits.len() == weights.len(),
    ensures
        sum(topped_up(credits, weights)) == sum(credits) + sum(weights),
    decreases credits.len(),
{
    if credits.len() > 0 {
        lemma_sum_topped_up(credits.drop_last(), weights.drop_last());
        assert(topped_up(credits, weights).drop_last() =~= topped_up(
            credits.drop_last(),
            weights.drop_last(),
        ));
    }
}

/// Replacing one entry changes the sum by the difference of the two values.
pub proof fn lemma_sum_update(s: Seq<int>, p: int, v: int)
    requires
        0 <= p < s.len(),
    ensures
        sum(s.update(p, v)) == sum(s) - s[p] + v,
    decreases s.len(),
{
    if p == s.len() - 1 {
        assert(s.update(p, v).drop_last() =~= s.drop_last());
    } else {
        lemma_sum_update(s.drop_last(), p, v);
        assert(s.update(p, v).drop_last() =~= s.drop_last().update(p, v));
    }
}

/// A sequence whose entries are all at least `low` sums to at least `low`
/// times its length.
pub proof fn lemma_sum_at_least(s: Seq<int>, low: int)
    requires
        forall|j: int| 0 <= j < s.len() ==> #[trigger] s[j] >= low,
    ensures
        sum(s) >= low * s.len(),
    decreases s.len(),
{
    if s.len() > 0 {
        lemma_sum_at_least(s.drop_last(), low);
        assert(low * s.len() == low * (s.len() - 1) + low) by (nonlinear_arith);
    } else {
        assert(low * 0 == 0);
    }
}

/// A sequence whose entries are all at most `high` sums to at most `high`
/// times its length.
pub proof fn lemma_sum_at_most(s: Seq<int>, high: int)
    requires
        forall|j: int| 0 <= j < s.len() ==> #[trigger] s[j] <= high,
    ensures
        sum(s) <= high * s.len(),
    decreases s.len(),
{
    if s.len() > 0 {
        lemma_sum_at_most(s.drop_last(), high);
        assert(high * s.len() == high * (s.len() - 1) + high) by (nonlinear_arith);
    } else {
        assert(high * 0 == 0);
    }
}

/// A sequence without negative entries that sums to zero holds only zeros.
pub proof fn lemma_zero_sum_of_non_negatives(s: Seq<int>)
    requires
        forall|j: int| 0 <= j < s.len() ==> #[trigger] s[j] >= 0,
        sum(s) == 0,
    ensures
        forall|j: int| 0 <= j < s.len() ==> #[trigger] s[j] == 0,
    decreases s.len(),
{
    if s.len() > 0 {
        lemma_sum_at_least(s.drop_last(), 0);
        lemma_zero_sum_of_non_negatives(s.drop_last());
        assert forall|j: int| 0 <= j < s.len() implies #[trigger] s[j] == 0 by {
            if j < s.len() - 1 {
                assert(s.drop_last()[j] == 0);
            }
        }
    }
}

/// Positive weights sum to at least their number.
pub proof fn lemma_total_positive(weights: Seq<int>)
    requires
        all_positive(weights),
    ensures
        sum(weights) >= weights.len(),
{
    lemma_sum_at_least(weights, 1);
}

/// No entry of a sequence of positive entries exceeds their sum.
pub proof fn lemma_entry_at_most_sum(s: Seq<int>, i: int)
    requires
        all_positive(s),
        0 <= i < s.len(),
    ensures
        s[i] <= sum(s),
{
    let t = s.update(i, 0);
    lemma_sum_update(s, i, 0);
    lemma_sum_at_least(t, 0);
}

/// In a sequence that sums to zero and whose entries all exceed `-bound`, no
/// entry exceeds `(len - 1) * (bound - 1)`.
pub proof fn lemma_entry_at_most(s: Seq<int>, bound: int, i: int)
    requires
        0 <= i < s.len(),
        sum(s) == 0,
        forall|j: int| 0 <= j < s.len() ==> #[trigger] s[j] > -bound,
    ensures
        s[i] <= (s.len() - 1) * (bound - 1),
{
    let t = s.update(i, 1 - bound);
    lemma_sum_update(s, i, 1 - bound);
    lemma_sum_at_least(t, 1 - bound);
    assert((1 - bound) * s.len() == -((s.len() - 1) * (bound - 1)) + (1 - bound))
        by (nonlinear_arith);
}


/// What holds of the credits after any number of rounds: there is one credit
/// per model, the credits sum to zero, each credit exceeds the negated total
/// weight, and each credit is what the model has been granted so far less what
/// it has been charged.
pub proof fn lemma_credits(weights: Seq<int>, rounds: nat)
    requires
        weights.len() > 0,
        all_positive(weights),
    ensures
        credits_after(weights, rounds).len() == weights.len(),
        sum(credits_after(weights, rounds)) == 0,
        forall|i: int|
            0 <= i < weights.len() ==> #[trigger] credits_after(weights, rounds)[i] > -sum(
                weights,
            ),
        forall|i: int|
            0 <= i < weights.len() ==> #[trigger] credits_after(weights, rounds)[i] == rounds
                * weights[i] - sum(weights) * times_selected(weights, i, 0, rounds),
        0 <= selection(weights, rounds) < weights.len(),
    decreases rounds,
{
    let total = sum(weights);
    let now = credits_after(weights, rounds);
    lemma_total_positive(weights);
    if rounds == 0 {
        lemma_sum_zeros(weights.len());
        assert forall|i: int| 0 <= i < weights.len() implies #[trigger] now[i] == rounds
            * weights[i] - total * times_selected(weights, i, 0, rounds) by {
            assert(rounds * weights[i] == 0) by (nonlinear_arith)
                requires
                    rounds == 0,
            ;
            assert(total * times_selected(weights, i, 0, rounds) == 0) by (nonlinear_arith)
                requires
                    times_selected(weights, i, 0, rounds) == 0,
            ;
        }
    } else {
        let earlier_rounds = (rounds - 1) as nat;
        let before = credits_after(weights, earlier_rounds);
        lemma_credits(weights, earlier_rounds);
        let raised = topped_up(before, weights);
        let chosen = pick(before, weights);
        lemma_first_max(raised, before.len() as int);
        lemma_sum_topped_up(before, weights);
        lemma_sum_update(raised, chosen, raised[chosen] - total);
        assert(raised[chosen] > 0) by {
            if raised[chosen] <= 0 {
                assert forall|j: int| 0 <= j < raised.len() implies #[trigger] raised[j] <= 0 by {}
                lemma_sum_at_most(raised, 0);
            }
        }
        assert(selection(weights, earlier_rounds) == chosen);
        assert forall|i: int| 0 <= i < weights.len() implies #[trigger] now[i] == rounds
            * weights[i] - total * times_selected(weights, i, 0, rounds) by {
            let count_before = times_selected(weights, i, 0, earlier_rounds);
            let count = times_selected(weights, i, 0, rounds);
            assert(before[i] == earlier_rounds * weights[i] - total * count_before);
            assert(rounds * weights[i] == earlier_rounds * weights[i] + weights[i])
                by (nonlinear_arith)
                requires
                    rounds == earlier_rounds + 1,
            ;
            if i == chosen {
                assert(count == count_before + 1);
                assert(total * count == total * count_before + total) by (nonlinear_arith)
                    requires
                        count == count_before + 1,
                ;
            } else {
                assert(count == count_before);
            }
        }
    }
    lemma_first_max(topped_up(now, weights), now.len() as int);
}


/// After as many rounds as the weights sum to, every credit is back at zero
/// and every model has been selected exactly as often as its weight says.
pub proof fn lemma_full_cycle(weights: Seq<int>)
    requires
        weights.len() > 0,
        all_positive(weights),
    ensures
        sum(weights) > 0,
        credits_after(weights, sum(weights) as nat) == credits_after(weights, 0),
        forall|i: int|
            0 <= i < weights.len() ==> #[trigger] times_selected(
                weights,
                i,
                0,
                sum(weights) as nat,
            ) == weights[i],
{
    let total = sum(weights);
    lemma_total_positive(weights);
    let rounds = total as nat;
    let end = credits_after(weights, rounds);
    lemma_credits(weights, rounds);
    assert forall|i: int| 0 <= i < end.len() implies #[trigger] end[i] >= 0 by {
        let count = times_selected(weights, i, 0, rounds);
        assert(end[i] == rounds * weights[i] - total * count);
        assert(end[i] > -total);
        assert(count <= weights[i]) by (nonlinear_arith)
            requires
                total * weights[i] - total * count > -total,
                total > 0,
        ;
        assert(total * weights[i] - total * count >= 0) by (nonlinear_arith)
            requires
                count <= weights[i],
                total > 0,
        ;
    }
    lemma_zero_sum_of_non_negatives(end);
    assert(end =~= credits_after(weights, 0));
    assert forall|i: int| 0 <= i < weights.len() implies #[trigger] times_selected(
        weights,
        i,
        0,
        rounds,
    ) == weights[i] by {
        let count = times_selected(weights, i, 0, rounds);
        assert(end[i] == 0);
        assert(end[i] == rounds * weights[i] - total * count);
        assert(count == weights[i]) by (nonlinear_arith)
            requires
                total * weights[i] - total * count == 0,
                total > 0,
        ;
    }
}

/// The credits repeat with a period of the total weight.
pub proof fn lemma_periodic(weights: Seq<int>, rounds: nat)
    requires
        weights.len() > 0,
        all_positive(weights),
    ensures
        credits_after(weights, (rounds + sum(weights)) as nat) == credits_after(weights, rounds),
        selection(weights, (rounds + sum(weights)) as nat) == selection(weights, rounds),
    decreases rounds,
{
    lemma_full_cycle(weights);
    if rounds > 0 {
        lemma_periodic(weights, (rounds - 1) as nat);
        assert((rounds + sum(weights)) as nat - 1 == (rounds - 1) as nat + sum(weights));
    }
}

/// Counting over two adjoining ranges of rounds adds up.
pub proof fn lemma_times_selected_split(weights: Seq<int>, i: int, from: nat, mid: nat, to: nat)
    requires
        from <= mid <= to,
    ensures
        times_selected(weights, i, from, to) == times_selected(weights, i, from, mid)
            + times_selected(weights, i, mid, to),
    decreases to,
{
    if to > mid {
        lemma_times_selected_split(weights, i, from, mid, (to - 1) as nat);
    }
}

/// Moving a range of rounds by the total weight does not change the count.
pub proof fn lemma_times_selected_shift(weights: Seq<int>, i: int, from: nat, to: nat)
    requires
        weights.len() > 0,
        all_positive(weights),
    ensures
        times_selected(
            weights,
            i,
            (from + sum(weights)) as nat,
            (to + sum(weights)) as nat,
        ) == times_selected(weights, i, from, to),
    decreases to,
{
    lemma_total_positive(weights);
    if to > from {
        lemma_times_selected_shift(weights, i, from, (to - 1) as nat);
        lemma_periodic(weights, (to - 1) as nat);
        assert((to + sum(weights)) as nat - 1 == (to - 1) as nat + sum(weights));
    }
}

/// Fairness of smooth weighted round robin: in every window of as many
/// consecutive rounds as the weights sum to, wherever the window starts, each
/// model is selected exactly as often as its weight says.
pub proof fn lemma_window_fairness(weights: Seq<int>, start: nat, i: int)
    requires
        weights.len() > 0,
        all_positive(weights),
        0 <= i < weights.len(),
    ensures
        sum(weights) > 0,
        times_selected(weights, i, start, (start + sum(weights)) as nat) == weights[i],
{
    let total = sum(weights) as nat;
    lemma_full_cycle(weights);
    lemma_times_selected_split(weights, i, 0, start, start + total);
    lemma_times_selected_split(weights, i, 0, total, start + total);
    lemma_times_selected_shift(weights, i, 0, start);
    assert(times_selected(weights, i, 0, total) == weights[i]);
}

/// Ties go to the model declared first: the selected model's topped-up credit
/// is at least every other one and strictly greater than that of every model
/// declared before it.
pub proof fn lemma_pick_is_first_greatest(credits: Seq<int>, weights: Seq<int>)
    requires
        credits.len() > 0,
        credits.len() == weights.len(),
    ensures
        0 <= pick(credits, weights) < credits.len(),
        forall|j: int|
            0 <= j < credits.len() ==> #[trigger] credits[j] + weights[j] <= credits[pick(
                credits,
                weights,
            )] + weights[pick(credits, weights)],
        forall|j: int|
            0 <= j < pick(credits, weights) ==> #[trigger] credits[j] + weights[j] < credits[pick(
                credits,
                weights,
            )] + weights[pick(credits, weights)],
{
    let raised = topped_up(credits, weights);
    lemma_first_max(raised, credits.len() as int);
    let chosen = pick(credits, weights);
    assert forall|j: int| 0 <= j < credits.len() implies #[trigger] credits[j] + weights[j]
        <= credits[chosen] + weights[chosen] by {
        assert(raised[j] <= raised[chosen]);
    }
    assert forall|j: int| 0 <= j < chosen implies #[trigger] credits[j] + weights[j]
        < credits[chosen] + weights[chosen] by {
        assert(raised[j] < raised[chosen]);
    }
}

/// Every weight is `weight`.
pub open spec fn all_equal(weights: Seq<int>, weight: int) -> bool {
    forall|i: int| 0 <= i < weights.len() ==> weights[i] == weight
}

/// The credits under equal weights: the models that have had their turn in
/// the current pass are behind by the rest of the pass, the others are ahead
/// by the turns that have passed.
proof fn lemma_equal_weights_credits(weights: Seq<int>, weight: int, round: nat)
    requires
        weights.len() > 0,
        weight > 0,
        all_equal(weights, weight),
    ensures
        credits_after(weights, round).len() == weights.len(),
        forall|i: int|
            0 <= i < weights.len() ==> #[trigger] credits_after(weights, round)[i] == (if i < round
                % weights.len() {
                (round % weights.len() - weights.len()) * weight
            } else {
                (round % weights.len()) * weight
            }),
        selection(weights, round) == round % weights.len(),
    decreases round,
{
    let n = weights.len() as int;
    let now = credits_after(weights, round);
    let turn = round as int % n;
    assert(0 <= turn < n) by (nonlinear_arith)
        requires
            turn == round as int % n,
            n > 0,
    ;
    assert(sum(weights) == n * weight) by {
        lemma_sum_at_least(weights, weight);
        lemma_sum_at_most(weights, weight);
        assert(weight * n == n * weight) by (nonlinear_arith);
    }
    if round == 0 {
        assert(0int % n == 0) by (nonlinear_arith)
            requires
                n > 0,
        ;
        assert forall|i: int| 0 <= i < n implies #[trigger] now[i] == turn * weight by {
            assert(0 * weight == 0);
        }
    } else {
        let earlier = (round - 1) as nat;
        let before = credits_after(weights, earlier);
        let last = earlier as int % n;
        lemma_equal_weights_credits(weights, weight, earlier);
        assert(0 <= last < n) by (nonlinear_arith)
            requires
                last == earlier as int % n,
                n > 0,
        ;
        assert(turn == if last + 1 < n {
            last + 1
        } else {
            0
        }) by (nonlinear_arith)
            requires
                n > 0,
                earlier >= 0,
                last == earlier as int % n,
                turn == (earlier as int + 1) % n,
        ;
        assert(selection(weights, earlier) == last);
        assert(pick(before, weights) == last);
        let raised = topped_up(before, weights);
        assert forall|i: int| 0 <= i < n implies #[trigger] now[i] == (if i < turn {
            (turn - n) * weight
        } else {
            turn * weight
        }) by {
            assert((last - n) * weight + weight == (last + 1 - n) * weight) by (nonlinear_arith);
            assert(last * weight + weight == (last + 1) * weight) by (nonlinear_arith);
            assert((last + 1) * weight - n * weight == (last + 1 - n) * weight)
                by (nonlinear_arith);
            assert(0 * weight == 0);
            if i < last {
                assert(raised[i] == (last - n) * weight + weight);
            } else {
                assert(raised[i] == last * weight + weight);
            }
        }
    }
    let raised = topped_up(now, weights);
    lemma_first_max(raised, n);
    let chosen = first_max(raised, n);
    assert((turn - n) * weight + weight < turn * weight + weight) by (nonlinear_arith)
        requires
            n > 0,
            weight > 0,
    ;
    assert(raised[turn] == turn * weight + weight);
    if chosen < turn {
        assert(raised[chosen] == (turn - n) * weight + weight);
        assert(raised[turn] <= raised[chosen]);
    } else if chosen > turn {
        assert(raised[chosen] == turn * weight + weight);
        assert(raised[turn] < raised[chosen]);
    }
}

/// With equal weights the tie between the models is broken in declaration
/// order every time: the models take turns, the first one first.
pub proof fn lemma_equal_weights_take_turns(weights: Seq<int>, weight: int, round: nat)
    requires
        weights.len() > 0,
        weight > 0,
        all_equal(weights, weight),
    ensures
        selection(weights, round) == round % weights.len(),
{
    lemma_equal_weights_credits(weights, weight, round);
}

/// The selections are a function of the weights alone: two runs over the same
/// weights select the same model in every round.
pub proof fn lemma_runs_agree(weights: Seq<int>, other: Seq<int>, round: nat)
    requires
        weights =~= other,
    ensures
        selection(weights, round) == selection(other, round),
        credits_after(weights, round) == credits_after(other, round),
{
}

} // verus!
