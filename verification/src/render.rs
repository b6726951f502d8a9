//! What a tick hands to whoever draws the simulation.
//!
//! A frame lists every sample, then every mean, each with its position and
//! with the paint it is to be drawn in. Paints are named by the index of a
//! mean; which colour stands for an index is up to the renderer.

use vstd::prelude::*;
use crate::components::{Mean, Sample};

verus! {

/// Which of the two populations an update speaks of.
#[derive(Clone, Copy, Debug, PartialEq, Eq, Structural)]
pub enum EntityKind {
    Sample,
    Mean,
}

/// How an entity is to be drawn.
#[derive(Clone, Copy, Debug, PartialEq, Eq, Structural)]
pub enum Paint {
    /// The colour that samples have before any assignment.
    Neutral,
    /// The colour of the mean with this index.
    OfMean(usize),
}

/// The position and the paint of one entity.
#[derive(Clone, Copy, Debug, PartialEq, Eq, Structural)]
pub struct RenderUpdate {
    pub kind: EntityKind,
    pub index: usize,
    pub x: i32,
    pub y: i32,
    pub paint: Paint,
}

/// The update for sample `i`.
pub open spec fn sample_update(i: int, sample: Sample, paint: Paint) -> RenderUpdate {
    RenderUpdate { kind: EntityKind::Sample, index: i as usize, x: sample.x, y: sample.y, paint }
}

/// The update for mean `c`, which is always drawn in its own colour.
pub open spec fn mean_update(c: int, mean: Mean) -> RenderUpdate {
    RenderUpdate { kind: EntityKind::Mean, index: c as usize, x: mean.x, y: mean.y, paint: Paint::OfMean(c as usize) }
}

/// The paint of sample `i`: that of the mean it chose, or neutral where
/// there is no assignment.
pub open spec fn paint_of(assignment: Option<Seq<usize>>, i: int) -> Paint {
    match assignment {
        Some(a) => Paint::OfMean(a[i]),
        None => Paint::Neutral,
    }
}

/// `updates` lists the samples in order, then the means in order.
pub open spec fn is_frame(
    updates: Seq<RenderUpdate>,
    samples: Seq<Sample>,
    means: Seq<Mean>,
    assignment: Option<Seq<usize>>,
) -> bool {
    &&& updates.len() == samples.len() + means.len()
    &&& forall|i: int|
        0 <= i < samples.len() ==> #[trigger] updates[i] == sample_update(i, samples[i], paint_of(assignment, i))
    &&& forall|c: int| 0 <= c < means.len() ==> #[trigger] updates[samples.len() + c] == mean_update(c, means[c])
}

/// The frame after a tick. With an assignment every sample takes the paint
/// of the mean it chose; without one, as after a reset, every sample is
/// neutral.
pub fn frame(samples: &Vec<Sample>, means: &Vec<Mean>, assignment: Option<&Vec<usize>>) -> (updates: Vec<RenderUpdate>)
    requires
        assignment is Some ==> assignment->Some_0.len() == samples.len(),
    ensures
        is_frame(
            updates@,
            samples@,
            means@,
            match assignment {
                Some(a) => Some(a@),
                None => None,
            },
        ),
{
    let ghost chosen: Option<Seq<usize>> = match assignment {
        Some(a) => Some(a@),
        None => None,
    };
    let mut updates: Vec<RenderUpdate> = Vec::new();
    let mut i: usize = 0;
    while i < samples.len()
        invariant
            i <= samples.len(),
            updates.len() == i,
            assignment is Some ==> assignment->Some_0.len() == samples.len(),
            chosen == (match assignment {
                Some(a) => Some(a@),
                None => None,
            }),
            forall|k: int| 0 <= k < i ==> #[trigger] updates@[k] == sample_update(k, samples@[k], paint_of(chosen, k)),
        decreases samples.len() - i,
    {
        let paint: Paint = match assignment {
            Some(a) => Paint::OfMean(a[i]),
            None => Paint::Neutral,
        };
        updates.push(RenderUpdate { kind: EntityKind::Sample, index: i, x: samples[i].x, y: samples[i].y, paint });
        i += 1;
    }
    let mut c: usize = 0;
    while c < means.len()
        invariant
            c <= means.len(),
            updates.len() == samples.len() + c,
            forall|k: int|
                0 <= k < samples.len() ==> #[trigger] updates@[k] == sample_update(k, samples@[k], paint_of(chosen, k)),
            forall|k: int| 0 <= k < c ==> #[trigger] updates@[samples.len() + k] == mean_update(k, means@[k]),
        decreases means.len() - c,
    {
        updates.push(
            RenderUpdate { kind: EntityKind::Mean, index: c, x: means[c].x, y: means[c].y, paint: Paint::OfMean(c) },
        );
        c += 1;
    }
    updates
}

} // verus!
