//! Recomputing the means from the samples that chose them.
//!
//! A mean that at least one sample chose moves to the average of those
//! samples. A mean that none chose is idle: it is moved to a fresh random
//! position, or parked once it has been idle for too long.

use vstd::prelude::*;
use vstd::arithmetic::div_mod::{lemma_fundamental_div_mod, lemma_hoist_over_denominator};
use crate::components::{Mean, Sample};
use crate::random::RandomSource;
use crate::resources::{Domain, IdlePolicy};

verus! {

/// How many of the first `n` samples chose mean `c`.
pub open spec fn cluster_size(a: Seq<usize>, c: int, n: int) -> int
    decreases n,
{
    if n <= 0 {
        0
    } else {
        cluster_size(a, c, n - 1) + if a[n - 1] == c { 1int } else { 0int }
    }
}

/// The sum of the `x` coordinates of those of the first `n` samples that
/// chose mean `c`.
pub open spec fn cluster_sum_x(samples: Seq<Sample>, a: Seq<usize>, c: int, n: int) -> int
    decreases n,
{
    if n <= 0 {
        0
    } else {
        cluster_sum_x(samples, a, c, n - 1) + if a[n - 1] == c { samples[n - 1].x as int } else { 0int }
    }
}

/// The sum of the `y` coordinates of those of the first `n` samples that
/// chose mean `c`.
pub open spec fn cluster_sum_y(samples: Seq<Sample>, a: Seq<usize>, c: int, n: int) -> int
    decreases n,
{
    if n <= 0 {
        0
    } else {
        cluster_sum_y(samples, a, c, n - 1) + if a[n - 1] == c { samples[n - 1].y as int } else { 0int }
    }
}

/// The number of samples in one cluster and the sums of their coordinates.
#[derive(Clone, Copy, Debug, PartialEq, Eq, Structural)]
pub struct ClusterTotal {
    pub count: usize,
    pub sum_x: i128,
    pub sum_y: i128,
}

impl ClusterTotal {
    /// The total of the samples that chose mean `c`.
    pub open spec fn is_total_of(self, samples: Seq<Sample>, a: Seq<usize>, c: int) -> bool {
        &&& self.count == cluster_size(a, c, samples.len() as int)
        &&& self.sum_x == cluster_sum_x(samples, a, c, samples.len() as int)
        &&& self.sum_y == cluster_sum_y(samples, a, c, samples.len() as int)
    }

    /// The sums are those of `count` coordinates, so that their averages
    /// are coordinates again.
    pub open spec fn averages_fit(self) -> bool {
        &&& self.count * i32::MIN <= self.sum_x <= self.count * i32::MAX
        &&& self.count * i32::MIN <= self.sum_y <= self.count * i32::MAX
    }
}

/// The sums over a prefix of the samples are bounded by its length.
pub proof fn lemma_cluster_bounds(samples: Seq<Sample>, a: Seq<usize>, c: int, n: int)
    requires
        0 <= n <= samples.len(),
    ensures
        0 <= cluster_size(a, c, n) <= n,
        cluster_size(a, c, n) * i32::MIN <= cluster_sum_x(samples, a, c, n) <= cluster_size(a, c, n) * i32::MAX,
        cluster_size(a, c, n) * i32::MIN <= cluster_sum_y(samples, a, c, n) <= cluster_size(a, c, n) * i32::MAX,
    decreases n,
{
    if n > 0 {
        lemma_cluster_bounds(samples, a, c, n - 1);
    }
}

/// One pass over the samples that totals every cluster.
pub fn cluster_totals(samples: &Vec<Sample>, assignment: &Vec<usize>, mean_count: usize) -> (totals: Vec<ClusterTotal>)
    requires
        assignment.len() == samples.len(),
        forall|i: int| 0 <= i < assignment.len() ==> #[trigger] assignment@[i] < mean_count,
    ensures
        totals.len() == mean_count,
        forall|c: int| 0 <= c < mean_count ==> (#[trigger] totals@[c]).is_total_of(samples@, assignment@, c),
        forall|c: int| 0 <= c < mean_count ==> (#[trigger] totals@[c]).averages_fit(),
{
    let mut totals: Vec<ClusterTotal> = Vec::with_capacity(mean_count);
    let mut c: usize = 0;
    while c < mean_count
        invariant
            c <= mean_count,
            totals.len() == c,
            forall|k: int| 0 <= k < c ==> #[trigger] totals@[k] == (ClusterTotal { count: 0, sum_x: 0, sum_y: 0 }),
        decreases mean_count - c,
    {
        totals.push(ClusterTotal { count: 0, sum_x: 0, sum_y: 0 });
        c += 1;
    }
    let mut i: usize = 0;
    while i < samples.len()
        invariant
            i <= samples.len(),
            assignment.len() == samples.len(),
            totals.len() == mean_count,
            forall|j: int| 0 <= j < assignment.len() ==> #[trigger] assignment@[j] < mean_count,
            forall|k: int| 0 <= k < mean_count ==> {
                &&& (#[trigger] totals@[k]).count == cluster_size(assignment@, k, i as int)
                &&& totals@[k].sum_x == cluster_sum_x(samples@, assignment@, k, i as int)
                &&& totals@[k].sum_y == cluster_sum_y(samples@, assignment@, k, i as int)
            },
        decreases samples.len() - i,
    {
        let chosen: usize = assignment[i];
        let sample: Sample = samples[i];
        let before: ClusterTotal = totals[chosen];
        proof {
            lemma_cluster_bounds(samples@, assignment@, chosen as int, i as int);
        }
        totals.set(
            chosen,
            ClusterTotal {
                count: before.count + 1,
                sum_x: before.sum_x + sample.x as i128,
                sum_y: before.sum_y + sample.y as i128,
            },
        );
        i += 1;
    }
    proof {
        assert forall|k: int| 0 <= k < mean_count implies (#[trigger] totals@[k]).averages_fit() by {
            lemma_cluster_bounds(samples@, assignment@, k, samples.len() as int);
        }
    }
    totals
}

/// The average of `count` coordinates with the given sum, rounded down to
/// the grid.
pub fn floor_average(sum: i128, count: usize) -> (average: i32)
    requires
        count > 0,
        count * i32::MIN <= sum <= count * i32::MAX,
    ensures
        average == sum as int / count as int,
{
    let n: i128 = count as i128;
    let shifted: i128 = sum + n * 0x8000_0000;
    let quotient: u128 = shifted as u128 / count as u128;
    proof {
        let s: int = shifted as int;
        let d: int = count as int;
        lemma_hoist_over_denominator(sum as int, 0x8000_0000, count as nat);
        lemma_fundamental_div_mod(s, d);
        assert(0 <= s / d <= 0xffff_ffff) by (nonlinear_arith)
            requires
                d > 0,
                s == d * (s / d) + s % d,
                0 <= s % d < d,
                0 <= s <= d * 0xffff_ffff,
        ;
    }
    (quotient as i128 - 0x8000_0000) as i32
}

/// What a tick does with one mean.
#[derive(Clone, Copy, Debug, PartialEq, Eq, Structural)]
pub enum MeanAction {
    /// Samples chose it: it moves to their average.
    Settle,
    /// No sample chose it and it is below the threshold: it moves to a
    /// fresh random position.
    Reseed,
    /// No sample chose it and it has reached the threshold: it is parked.
    Park,
}

/// The action for a mean that `size` samples chose.
pub open spec fn action_for(before: Mean, size: int, policy: IdlePolicy) -> MeanAction {
    if size > 0 {
        MeanAction::Settle
    } else if before.last_tick < policy.stagnation_threshold {
        MeanAction::Reseed
    } else {
        MeanAction::Park
    }
}

/// The mean at the average of a cluster with the given sums, rounded down
/// to the grid, with its idle count cleared.
pub open spec fn settled_at(size: int, sum_x: int, sum_y: int) -> Mean {
    Mean { x: (sum_x / size) as i32, y: (sum_y / size) as i32, last_tick: 0 }
}

/// The mean `before`, moved to `(x, y)` after one more idle tick.
pub open spec fn reseeded_at(before: Mean, x: i32, y: i32) -> Mean {
    Mean { x, y, last_tick: (before.last_tick + 1) as u32 }
}

/// The mean `before`, held at the parking position.
pub open spec fn parked_at(before: Mean, policy: IdlePolicy) -> Mean {
    Mean { x: policy.park_x, y: policy.park_y, last_tick: before.last_tick }
}

/// `after` is what one tick makes of `before`, given the size and the sums
/// of its cluster. Only a reseeded position is left open, within the domain.
pub open spec fn follows(
    before: Mean,
    after: Mean,
    size: int,
    sum_x: int,
    sum_y: int,
    policy: IdlePolicy,
    domain: Domain,
) -> bool {
    match action_for(before, size, policy) {
        MeanAction::Settle => after == settled_at(size, sum_x, sum_y),
        MeanAction::Reseed => after == reseeded_at(before, after.x, after.y) && domain.contains(
            after.x as int,
            after.y as int,
        ),
        MeanAction::Park => after == parked_at(before, policy),
    }
}

/// Every mean of `after` is what one tick makes of the mean of `before` at
/// the same index.
pub open spec fn is_update(
    samples: Seq<Sample>,
    a: Seq<usize>,
    before: Seq<Mean>,
    after: Seq<Mean>,
    policy: IdlePolicy,
    domain: Domain,
) -> bool {
    &&& after.len() == before.len()
    &&& forall|c: int|
        0 <= c < before.len() ==> follows(
            before[c],
            #[trigger] after[c],
            cluster_size(a, c, samples.len() as int),
            cluster_sum_x(samples, a, c, samples.len() as int),
            cluster_sum_y(samples, a, c, samples.len() as int),
            policy,
            domain,
        )
}

pub fn decide(before: &Mean, count: usize, policy: &IdlePolicy) -> (action: MeanAction)
    ensures
        action == action_for(*before, count as int, *policy),
{
    if count > 0 {
        MeanAction::Settle
    } else if before.last_tick < policy.stagnation_threshold {
        MeanAction::Reseed
    } else {
        MeanAction::Park
    }
}

pub fn settle(total: &ClusterTotal) -> (after: Mean)
    requires
        total.count > 0,
        total.averages_fit(),
    ensures
        after == settled_at(total.count as int, total.sum_x as int, total.sum_y as int),
{
    Mean { x: floor_average(total.sum_x, total.count), y: floor_average(total.sum_y, total.count), last_tick: 0 }
}

pub fn reseed(before: &Mean, x: i32, y: i32) -> (after: Mean)
    requires
        before.last_tick < u32::MAX,
    ensures
        after == reseeded_at(*before, x, y),
{
    Mean { x, y, last_tick: before.last_tick + 1 }
}

pub fn park(before: &Mean, policy: &IdlePolicy) -> (after: Mean)
    ensures
        after == parked_at(*before, *policy),
{
    Mean { x: policy.park_x, y: policy.park_y, last_tick: before.last_tick }
}

/// Moves every mean as its cluster demands, drawing a fresh position for
/// each mean that is reseeded.
pub fn update(
    samples: &Vec<Sample>,
    means: &mut Vec<Mean>,
    assignment: &Vec<usize>,
    policy: &IdlePolicy,
    domain: &Domain,
    rng: &mut RandomSource,
)
    requires
        assignment.len() == samples.len(),
        forall|i: int| 0 <= i < assignment.len() ==> #[trigger] assignment@[i] < old(means).len(),
    ensures
        is_update(samples@, assignment@, old(means)@, final(means)@, *policy, *domain),
{
    let totals: Vec<ClusterTotal> = cluster_totals(samples, assignment, means.len());
    let mut id: usize = 0;
    while id < means.len()
        invariant
            id <= means.len(),
            means.len() == old(means).len(),
            totals.len() == means.len(),
            forall|c: int| 0 <= c < totals.len() ==> (#[trigger] totals@[c]).is_total_of(samples@, assignment@, c),
            forall|c: int| 0 <= c < totals.len() ==> (#[trigger] totals@[c]).averages_fit(),
            forall|c: int| id <= c < means.len() ==> #[trigger] means@[c] == old(means)@[c],
            forall|c: int|
                0 <= c < id ==> follows(
                    old(means)@[c],
                    #[trigger] means@[c],
                    cluster_size(assignment@, c, samples.len() as int),
                    cluster_sum_x(samples@, assignment@, c, samples.len() as int),
                    cluster_sum_y(samples@, assignment@, c, samples.len() as int),
                    *policy,
                    *domain,
                ),
        decreases means.len() - id,
    {
        let before: Mean = means[id];
        let total: ClusterTotal = totals[id];
        let after: Mean = match decide(&before, total.count, policy) {
            MeanAction::Settle => settle(&total),
            MeanAction::Reseed => {
                let x: i32 = rng.coordinate(domain.max_x());
                let y: i32 = rng.coordinate(domain.max_y());
                reseed(&before, x, y)
            },
            MeanAction::Park => park(&before, policy),
        };
        means.set(id, after);
        id += 1;
    }
}

} // verus!
