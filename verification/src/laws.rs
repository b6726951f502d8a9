//! What holds of every assignment and every update.

use vstd::prelude::*;
use vstd::arithmetic::div_mod::lemma_fundamental_div_mod;
use crate::assign::{dist_sq, is_assignment, is_nearest};
use crate::components::{Mean, Sample};
use crate::generate::samples_within;
use crate::resources::{Domain, IdlePolicy};
use crate::update::{cluster_size, cluster_sum_x, cluster_sum_y, is_update, lemma_cluster_bounds};

verus! {

/// Among the first `n` means there is one that no other of them is closer
/// than, and that every earlier one is strictly farther than.
proof fn lemma_nearest_in_prefix(s: Sample, means: Seq<Mean>, n: int) -> (c: int)
    requires
        1 <= n <= means.len(),
    ensures
        0 <= c < n,
        forall|j: int| 0 <= j < n ==> dist_sq(s, means[c]) <= #[trigger] dist_sq(s, means[j]),
        forall|j: int| 0 <= j < c ==> dist_sq(s, means[c]) < #[trigger] dist_sq(s, means[j]),
    decreases n,
{
    if n == 1 {
        0
    } else {
        let c = lemma_nearest_in_prefix(s, means, n - 1);
        if dist_sq(s, means[n - 1]) < dist_sq(s, means[c]) {
            n - 1
        } else {
            c
        }
    }
}

/// Where there is a mean at all, every sample has a nearest mean.
pub proof fn nearest_exists(s: Sample, means: Seq<Mean>)
    requires
        means.len() > 0,
    ensures
        exists|c: int| is_nearest(s, means, c),
{
    let c = lemma_nearest_in_prefix(s, means, means.len() as int);
    assert(is_nearest(s, means, c));
}

/// A sample has no more than one nearest mean.
pub proof fn nearest_is_unique(s: Sample, means: Seq<Mean>, b: int, c: int)
    requires
        is_nearest(s, means, b),
        is_nearest(s, means, c),
    ensures
        b == c,
{
    if b < c {
        assert(dist_sq(s, means[c]) < dist_sq(s, means[b]));
        assert(dist_sq(s, means[b]) <= dist_sq(s, means[c]));
    } else if c < b {
        assert(dist_sq(s, means[b]) < dist_sq(s, means[c]));
        assert(dist_sq(s, means[c]) <= dist_sq(s, means[b]));
    }
}

/// Assignment is a total function: every sample is given the index of one
/// of the means, and no other assignment of the same samples to the same
/// means differs from it anywhere.
pub proof fn assignment_is_total_and_single_valued(
    samples: Seq<Sample>,
    means: Seq<Mean>,
    a: Seq<usize>,
    b: Seq<usize>,
)
    requires
        is_assignment(samples, means, a),
        is_assignment(samples, means, b),
    ensures
        forall|i: int| 0 <= i < samples.len() ==> 0 <= #[trigger] a[i] < means.len(),
        a == b,
{
    assert forall|i: int| 0 <= i < samples.len() implies #[trigger] a[i] == b[i] by {
        nearest_is_unique(samples[i], means, a[i] as int, b[i] as int);
    }
    assert(a =~= b);
}

/// No mean is closer to a sample than the one it is assigned to, and of
/// the means at that same distance the assigned one has the least index.
pub proof fn assigned_mean_is_closest(samples: Seq<Sample>, means: Seq<Mean>, a: Seq<usize>, i: int, j: int)
    requires
        is_assignment(samples, means, a),
        0 <= i < samples.len(),
        0 <= j < means.len(),
    ensures
        dist_sq(samples[i], means[a[i] as int]) <= dist_sq(samples[i], means[j]),
        dist_sq(samples[i], means[a[i] as int]) == dist_sq(samples[i], means[j]) ==> a[i] <= j,
{
    assert(is_nearest(samples[i], means, a[i] as int));
    if j < a[i] {
        assert(dist_sq(samples[i], means[a[i] as int]) < dist_sq(samples[i], means[j]));
    }
}

/// The sums over a cluster of samples inside the domain are bounded by the
/// size of the cluster times the half extents of the domain.
proof fn lemma_cluster_within(samples: Seq<Sample>, a: Seq<usize>, c: int, n: int, domain: Domain)
    requires
        0 <= n <= samples.len(),
        samples_within(samples, domain),
    ensures
        -cluster_size(a, c, n) * domain.half_width() <= cluster_sum_x(samples, a, c, n) <= cluster_size(a, c, n)
            * domain.half_width(),
        -cluster_size(a, c, n) * domain.half_height() <= cluster_sum_y(samples, a, c, n) <= cluster_size(a, c, n)
            * domain.half_height(),
    decreases n,
{
    if n > 0 {
        lemma_cluster_within(samples, a, c, n - 1, domain);
        let size = cluster_size(a, c, n - 1);
        let hw = domain.half_width();
        let hh = domain.half_height();
        assert((size + 1) * hw == size * hw + hw) by (nonlinear_arith);
        assert((size + 1) * hh == size * hh + hh) by (nonlinear_arith);
        assert(-(size + 1) * hw == -size * hw - hw) by (nonlinear_arith);
        assert(-(size + 1) * hh == -size * hh - hh) by (nonlinear_arith);
        assert(domain.contains(samples[n - 1].x as int, samples[n - 1].y as int));
    }
}

/// The quotient of a sum of `size` values between `low` and `high` lies
/// between `low` and `high`, and within one of the exact average.
proof fn lemma_average_between(sum: int, size: int, low: int, high: int)
    requires
        size > 0,
        size * low <= sum <= size * high,
    ensures
        low <= sum / size <= high,
        size * (sum / size) <= sum < size * (sum / size) + size,
{
    lemma_fundamental_div_mod(sum, size);
    let q = sum / size;
    let r = sum % size;
    assert(low <= q <= high) by (nonlinear_arith)
        requires
            size > 0,
            sum == size * q + r,
            0 <= r < size,
            size * low <= sum <= size * high,
    ;
}

/// A mean that samples chose moves to their average: its new coordinate,
/// times the number of those samples, differs from the sum of their
/// coordinates by less than that number, the average being rounded down to
/// the grid. Its idle count is cleared.
pub proof fn settled_mean_is_average(
    samples: Seq<Sample>,
    a: Seq<usize>,
    before: Seq<Mean>,
    after: Seq<Mean>,
    policy: IdlePolicy,
    domain: Domain,
    c: int,
)
    requires
        is_update(samples, a, before, after, policy, domain),
        0 <= c < before.len(),
        cluster_size(a, c, samples.len() as int) > 0,
    ensures
        ({
            let size = cluster_size(a, c, samples.len() as int);
            let sum_x = cluster_sum_x(samples, a, c, samples.len() as int);
            let sum_y = cluster_sum_y(samples, a, c, samples.len() as int);
            &&& size * after[c].x <= sum_x < size * after[c].x + size
            &&& size * after[c].y <= sum_y < size * after[c].y + size
            &&& after[c].last_tick == 0
        }),
{
    let n = samples.len() as int;
    let size = cluster_size(a, c, n);
    assert(after[c].last_tick == 0);
    lemma_cluster_bounds(samples, a, c, n);
    lemma_average_between(cluster_sum_x(samples, a, c, n), size, i32::MIN as int, i32::MAX as int);
    lemma_average_between(cluster_sum_y(samples, a, c, n), size, i32::MIN as int, i32::MAX as int);
}

/// A mean that samples chose does not leave the domain that holds the
/// samples.
pub proof fn settled_mean_stays_within(
    samples: Seq<Sample>,
    a: Seq<usize>,
    before: Seq<Mean>,
    after: Seq<Mean>,
    policy: IdlePolicy,
    domain: Domain,
    c: int,
)
    requires
        is_update(samples, a, before, after, policy, domain),
        samples_within(samples, domain),
        0 <= c < before.len(),
        cluster_size(a, c, samples.len() as int) > 0,
    ensures
        domain.contains(after[c].x as int, after[c].y as int),
{
    let n = samples.len() as int;
    let size = cluster_size(a, c, n);
    assert(after[c].last_tick == 0);
    lemma_cluster_within(samples, a, c, n, domain);
    assert(size * (-domain.half_width()) == -size * domain.half_width()) by (nonlinear_arith);
    assert(size * (-domain.half_height()) == -size * domain.half_height()) by (nonlinear_arith);
    lemma_average_between(cluster_sum_x(samples, a, c, n), size, -domain.half_width(), domain.half_width());
    lemma_average_between(cluster_sum_y(samples, a, c, n), size, -domain.half_height(), domain.half_height());
}

/// The idle count of a mean below the threshold grows by exactly one in a
/// tick in which no sample chose it, and is zero after a tick in which one
/// did.
pub proof fn idle_count_steps(
    samples: Seq<Sample>,
    a: Seq<usize>,
    before: Seq<Mean>,
    after: Seq<Mean>,
    policy: IdlePolicy,
    domain: Domain,
    c: int,
)
    requires
        is_update(samples, a, before, after, policy, domain),
        0 <= c < before.len(),
        before[c].last_tick < policy.stagnation_threshold,
    ensures
        cluster_size(a, c, samples.len() as int) == 0 ==> after[c].last_tick == before[c].last_tick + 1,
        cluster_size(a, c, samples.len() as int) > 0 ==> after[c].last_tick == 0,
        after[c].last_tick <= policy.stagnation_threshold,
{
    lemma_cluster_bounds(samples, a, c, samples.len() as int);
    assert(after[c].last_tick >= 0);
}

/// Under a threshold above zero, the idle count of a mean is zero after a
/// tick exactly if a sample chose it in that tick.
pub proof fn idle_count_is_zero_iff_chosen(
    samples: Seq<Sample>,
    a: Seq<usize>,
    before: Seq<Mean>,
    after: Seq<Mean>,
    policy: IdlePolicy,
    domain: Domain,
    c: int,
)
    requires
        is_update(samples, a, before, after, policy, domain),
        0 <= c < before.len(),
        policy.stagnation_threshold > 0,
    ensures
        after[c].last_tick == 0 <==> cluster_size(a, c, samples.len() as int) > 0,
{
    lemma_cluster_bounds(samples, a, c, samples.len() as int);
    assert(after[c].last_tick >= 0);
}

/// A mean whose idle count has reached the threshold is not moved to a
/// random position any more: as long as no sample chooses it, it is held at
/// the parking position and its idle count stands still.
pub proof fn stagnant_mean_is_parked(
    samples: Seq<Sample>,
    a: Seq<usize>,
    before: Seq<Mean>,
    after: Seq<Mean>,
    policy: IdlePolicy,
    domain: Domain,
    c: int,
)
    requires
        is_update(samples, a, before, after, policy, domain),
        0 <= c < before.len(),
        before[c].last_tick >= policy.stagnation_threshold,
        cluster_size(a, c, samples.len() as int) == 0,
    ensures
        after[c].x == policy.park_x,
        after[c].y == policy.park_y,
        after[c].last_tick == before[c].last_tick,
{
    assert(after[c].last_tick >= 0);
}

/// A parked mean that is still not chosen in the next tick does not move.
pub proof fn parked_mean_holds_position(
    samples: Seq<Sample>,
    first: Seq<usize>,
    second: Seq<usize>,
    start: Seq<Mean>,
    middle: Seq<Mean>,
    end: Seq<Mean>,
    policy: IdlePolicy,
    domain: Domain,
    c: int,
)
    requires
        is_update(samples, first, start, middle, policy, domain),
        is_update(samples, second, middle, end, policy, domain),
        0 <= c < start.len(),
        start[c].last_tick >= policy.stagnation_threshold,
        cluster_size(first, c, samples.len() as int) == 0,
        cluster_size(second, c, samples.len() as int) == 0,
    ensures
        end[c] == middle[c],
{
    stagnant_mean_is_parked(samples, first, start, middle, policy, domain, c);
    stagnant_mean_is_parked(samples, second, middle, end, policy, domain, c);
}

/// A mean that an idle tick brings to the threshold is parked by the next
/// idle tick.
pub proof fn mean_reaching_threshold_is_parked(
    samples: Seq<Sample>,
    first: Seq<usize>,
    second: Seq<usize>,
    start: Seq<Mean>,
    middle: Seq<Mean>,
    end: Seq<Mean>,
    policy: IdlePolicy,
    domain: Domain,
    c: int,
)
    requires
        is_update(samples, first, start, middle, policy, domain),
        is_update(samples, second, middle, end, policy, domain),
        0 <= c < start.len(),
        start[c].last_tick + 1 == policy.stagnation_threshold,
        cluster_size(first, c, samples.len() as int) == 0,
        cluster_size(second, c, samples.len() as int) == 0,
    ensures
        middle[c].last_tick == policy.stagnation_threshold,
        end[c] == (Mean { x: policy.park_x, y: policy.park_y, last_tick: policy.stagnation_threshold }),
{
    idle_count_steps(samples, first, start, middle, policy, domain, c);
    stagnant_mean_is_parked(samples, second, middle, end, policy, domain, c);
}

/// An update neither adds nor removes a mean.
pub proof fn update_keeps_mean_count(
    samples: Seq<Sample>,
    a: Seq<usize>,
    before: Seq<Mean>,
    after: Seq<Mean>,
    policy: IdlePolicy,
    domain: Domain,
)
    requires
        is_update(samples, a, before, after, policy, domain),
    ensures
        after.len() == before.len(),
{
}

} // verus!
