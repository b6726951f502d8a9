//! Nearest-mean assignment.
//!
//! Means are compared by squared Euclidean distance, which orders them
//! exactly as Euclidean distance does and stays within the integers.

use vstd::prelude::*;
use crate::components::{Mean, Sample};

verus! {

/// The squared Euclidean distance between a sample and a mean.
pub open spec fn dist_sq(s: Sample, m: Mean) -> int {
    (m.x - s.x) * (m.x - s.x) + (m.y - s.y) * (m.y - s.y)
}

/// `c` is the index of the mean that `s` belongs to: no mean is closer, and
/// every mean before `c` is strictly farther, so that among means at equal
/// distance the first one wins.
pub open spec fn is_nearest(s: Sample, means: Seq<Mean>, c: int) -> bool {
    &&& 0 <= c < means.len()
    &&& forall|j: int| 0 <= j < means.len() ==> dist_sq(s, means[c]) <= #[trigger] dist_sq(s, means[j])
    &&& forall|j: int| 0 <= j < c ==> dist_sq(s, means[c]) < #[trigger] dist_sq(s, means[j])
}

/// `a` assigns every sample to its nearest mean.
pub open spec fn is_assignment(samples: Seq<Sample>, means: Seq<Mean>, a: Seq<usize>) -> bool {
    &&& a.len() == samples.len()
    &&& forall|i: int| 0 <= i < samples.len() ==> is_nearest(samples[i], means, #[trigger] a[i] as int)
}

pub fn squared_distance(s: &Sample, m: &Mean) -> (d: u128)
    ensures
        d == dist_sq(*s, *m),
{
    let dx: i128 = m.x as i128 - s.x as i128;
    let dy: i128 = m.y as i128 - s.y as i128;
    assert(0 <= dx * dx <= 0x1_0000_0000_0000_0000) by (nonlinear_arith)
        requires
            -0x1_0000_0000 <= dx <= 0x1_0000_0000,
    ;
    assert(0 <= dy * dy <= 0x1_0000_0000_0000_0000) by (nonlinear_arith)
        requires
            -0x1_0000_0000 <= dy <= 0x1_0000_0000,
    ;
    (dx * dx + dy * dy) as u128
}

/// Scans the means in order and keeps the first one at the least distance.
pub fn nearest_mean(s: &Sample, means: &Vec<Mean>) -> (c: usize)
    requires
        means.len() > 0,
    ensures
        is_nearest(*s, means@, c as int),
{
    let mut best: usize = 0;
    let mut smallest: u128 = squared_distance(s, &means[0]);
    let mut id: usize = 1;
    while id < means.len()
        invariant
            1 <= id <= means.len(),
            best < id,
            smallest == dist_sq(*s, means@[best as int]),
            forall|j: int| 0 <= j < id ==> smallest <= #[trigger] dist_sq(*s, means@[j]),
            forall|j: int| 0 <= j < best ==> smallest < #[trigger] dist_sq(*s, means@[j]),
        decreases means.len() - id,
    {
        let distance: u128 = squared_distance(s, &means[id]);
        if distance < smallest {
            smallest = distance;
            best = id;
        }
        id += 1;
    }
    best
}

/// Assigns every sample to its nearest mean.
pub fn assign(samples: &Vec<Sample>, means: &Vec<Mean>) -> (assignment: Vec<usize>)
    requires
        means.len() > 0,
    ensures
        is_assignment(samples@, means@, assignment@),
{
    let mut assignment: Vec<usize> = Vec::with_capacity(samples.len());
    let mut i: usize = 0;
    while i < samples.len()
        invariant
            i <= samples.len(),
            means.len() > 0,
            assignment.len() == i,
            forall|k: int| 0 <= k < i ==> is_nearest(samples@[k], means@, #[trigger] assignment@[k] as int),
        decreases samples.len() - i,
    {
        let c: usize = nearest_mean(&samples[i], means);
        assignment.push(c);
        i += 1;
    }
    assignment
}

} // verus!
