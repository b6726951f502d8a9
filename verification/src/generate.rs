//! Generating and regenerating the two populations.

use vstd::prelude::*;
use crate::components::{Mean, Sample};
use crate::random::RandomSource;
use crate::resources::{Domain, MeanCount, SampleCount};

verus! {

/// Why a configuration cannot be run.
#[derive(Clone, Copy, Debug, PartialEq, Eq, Structural)]
pub enum ConfigError {
    /// No mean was asked for, so that no sample could be assigned.
    NoMeans,
}

/// Every sample lies inside the domain.
pub open spec fn samples_within(samples: Seq<Sample>, domain: Domain) -> bool {
    forall|i: int| 0 <= i < samples.len() ==> domain.contains((#[trigger] samples[i]).x as int, samples[i].y as int)
}

/// Every mean lies inside the domain and has never been idle.
pub open spec fn means_fresh(means: Seq<Mean>, domain: Domain) -> bool {
    forall|c: int|
        0 <= c < means.len() ==> {
            &&& domain.contains((#[trigger] means[c]).x as int, means[c].y as int)
            &&& means[c].last_tick == 0
        }
}

/// A sample at a uniformly drawn position inside the domain.
pub fn random_sample(domain: &Domain, rng: &mut RandomSource) -> (sample: Sample)
    ensures
        domain.contains(sample.x as int, sample.y as int),
{
    let x: i32 = rng.coordinate(domain.max_x());
    let y: i32 = rng.coordinate(domain.max_y());
    Sample::new(x, y)
}

/// A mean at a uniformly drawn position inside the domain, never idle yet.
pub fn random_mean(domain: &Domain, rng: &mut RandomSource) -> (mean: Mean)
    ensures
        domain.contains(mean.x as int, mean.y as int),
        mean.last_tick == 0,
{
    let x: i32 = rng.coordinate(domain.max_x());
    let y: i32 = rng.coordinate(domain.max_y());
    Mean::new(x, y, 0)
}

/// A population of `sample_count` samples, each inside the domain.
pub fn generate_samples(sample_count: &SampleCount, domain: &Domain, rng: &mut RandomSource) -> (samples: Vec<Sample>)
    ensures
        samples.len() == sample_count.0,
        samples_within(samples@, *domain),
{
    let mut samples: Vec<Sample> = Vec::new();
    let mut i: usize = 0;
    while i < sample_count.0
        invariant
            i <= sample_count.0,
            samples.len() == i,
            samples_within(samples@, *domain),
        decreases sample_count.0 - i,
    {
        let sample: Sample = random_sample(domain, rng);
        samples.push(sample);
        i += 1;
    }
    samples
}

/// Moves every sample to a new position inside the domain.
pub fn reset_samples(samples: &mut Vec<Sample>, domain: &Domain, rng: &mut RandomSource)
    ensures
        final(samples).len() == old(samples).len(),
        samples_within(final(samples)@, *domain),
{
    let mut i: usize = 0;
    while i < samples.len()
        invariant
            i <= samples.len(),
            samples.len() == old(samples).len(),
            forall|k: int| 0 <= k < i ==> domain.contains((#[trigger] samples@[k]).x as int, samples@[k].y as int),
        decreases samples.len() - i,
    {
        let sample: Sample = random_sample(domain, rng);
        samples.set(i, sample);
        i += 1;
    }
}

/// A set of `mean_count` means, each inside the domain and never idle;
/// refused when no mean is asked for.
pub fn generate_means(mean_count: &MeanCount, domain: &Domain, rng: &mut RandomSource) -> (generated: Result<
    Vec<Mean>,
    ConfigError,
>)
    ensures
        generated is Err <==> mean_count.0 == 0,
        generated is Err ==> generated->Err_0 == ConfigError::NoMeans,
        generated is Ok ==> generated->Ok_0.len() == mean_count.0 && means_fresh(generated->Ok_0@, *domain),
{
    if mean_count.0 == 0 {
        return Err(ConfigError::NoMeans);
    }
    let mut means: Vec<Mean> = Vec::new();
    let mut i: usize = 0;
    while i < mean_count.0
        invariant
            i <= mean_count.0,
            means.len() == i,
            means_fresh(means@, *domain),
        decreases mean_count.0 - i,
    {
        let mean: Mean = random_mean(domain, rng);
        means.push(mean);
        i += 1;
    }
    Ok(means)
}

/// Moves every mean to a new position inside the domain and clears its
/// idle count.
pub fn reset_means(means: &mut Vec<Mean>, domain: &Domain, rng: &mut RandomSource)
    ensures
        final(means).len() == old(means).len(),
        means_fresh(final(means)@, *domain),
{
    let mut i: usize = 0;
    while i < means.len()
        invariant
            i <= means.len(),
            means.len() == old(means).len(),
            forall|c: int|
                0 <= c < i ==> {
                    &&& domain.contains((#[trigger] means@[c]).x as int, means@[c].y as int)
                    &&& means@[c].last_tick == 0
                },
        decreases means.len() - i,
    {
        let mean: Mean = random_mean(domain, rng);
        means.set(i, mean);
        i += 1;
    }
}

} // verus!
