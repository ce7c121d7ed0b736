//! Counting how often each model has been selected.

use vstd::hash_map::StringHashMap;
use vstd::prelude::*;

verus! {

/// How often `id` has been recorded in `counts`; zero where it has no entry.
pub open spec fn count_of(counts: Map<Seq<char>, usize>, id: Seq<char>) -> nat {
    if counts.contains_key(id) {
        counts[id] as nat
    } else {
        0
    }
}

/// The counts after one more request for `id`. A counter never goes down: at
/// `usize::MAX` it stays.
pub open spec fn recorded(counts: Map<Seq<char>, usize>, id: Seq<char>) -> Map<Seq<char>, usize> {
    if count_of(counts, id) < usize::MAX {
        counts.insert(id, (count_of(counts, id) + 1) as usize)
    } else {
        counts.insert(id, usize::MAX)
    }
}

/// The counts after `n` more requests for `id`.
pub open spec fn recorded_times(counts: Map<Seq<char>, usize>, id: Seq<char>, n: nat) -> Map<
    Seq<char>,
    usize,
>
    decreases n,
{
    if n == 0 {
        counts
    } else {
        recorded(recorded_times(counts, id, (n - 1) as nat), id)
    }
}

/// Recording `n` requests for one model raises its count by exactly `n`, as
/// long as the count fits a `usize`. From empty statistics the count is
/// therefore `n`.
pub proof fn lemma_recorded_times(counts: Map<Seq<char>, usize>, id: Seq<char>, n: nat)
    requires
        count_of(counts, id) + n <= usize::MAX,
    ensures
        count_of(recorded_times(counts, id, n), id) == count_of(counts, id) + n,
        count_of(recorded_times(Map::empty(), id, n), id) == n,
    decreases n,
{
    if n > 0 {
        lemma_recorded_times(counts, id, (n - 1) as nat);
        lemma_recorded_times(Map::empty(), id, (n - 1) as nat);
    }
}

/// Recording requests for one model leaves the count of every other model as
/// it was.
pub proof fn lemma_recorded_times_elsewhere(
    counts: Map<Seq<char>, usize>,
    id: Seq<char>,
    n: nat,
    other: Seq<char>,
)
    requires
        other != id,
    ensures
        count_of(recorded_times(counts, id, n), other) == count_of(counts, other),
    decreases n,
{
    if n > 0 {
        lemma_recorded_times_elsewhere(counts, id, (n - 1) as nat, other);
    }
}

/// A counter never goes down, whatever is recorded.
pub proof fn lemma_recorded_never_decreases(
    counts: Map<Seq<char>, usize>,
    id: Seq<char>,
    any: Seq<char>,
)
    ensures
        count_of(recorded(counts, id), any) >= count_of(counts, any),
{
}

/// The number of requests that each model has been selected for. Entries are
/// never removed or reset.
pub struct RouterStats {
    requests_per_model: StringHashMap<usize>,
}

impl RouterStats {
    /// The stored counters, by model identifier.
    pub closed spec fn counts(&self) -> Map<Seq<char>, usize> {
        self.requests_per_model@
    }

    /// Statistics in which nothing has been recorded.
    pub fn default() -> (stats: RouterStats)
        ensures
            stats.counts() == Map::<Seq<char>, usize>::empty(),
    {
        RouterStats { requests_per_model: StringHashMap::new() }
    }

    /// Records one request for `model_id` and returns the model's new count.
    pub fn increment_request(&mut self, model_id: &String) -> (count: usize)
        ensures
            final(self).counts() == recorded(old(self).counts(), model_id@),
            count == count_of(final(self).counts(), model_id@),
    {
        let previous = self.requests(model_id);
        let count = if previous < usize::MAX {
            previous + 1
        } else {
            usize::MAX
        };
        self.requests_per_model.insert(model_id.clone(), count);
        count
    }

    /// How often a request for `model_id` has been recorded.
    pub fn requests(&self, model_id: &String) -> (count: usize)
        ensures
            count == count_of(self.counts(), model_id@),
    {
        match self.requests_per_model.get(model_id.as_str()) {
            Some(count) => *count,
            None => 0,
        }
    }
}

} // verus!
