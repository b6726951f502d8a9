//! The state of one simulation and the tick that advances it.

use vstd::prelude::*;
use crate::assign::{assign, is_assignment};
use crate::components::{Mean, Sample};
use crate::generate::{generate_means, generate_samples, means_fresh, reset_means, reset_samples, samples_within, ConfigError};
use crate::random::RandomSource;
use crate::render::{frame, is_frame, RenderUpdate};
use crate::resources::{Domain, IdlePolicy, MeanCount, SampleCount};
use crate::update::{is_update, update};

verus! {

/// What a simulation is set up with; it does not change afterwards.
#[derive(Clone, Copy, Debug, PartialEq, Eq, Structural)]
pub struct Config {
    pub sample_count: SampleCount,
    pub mean_count: MeanCount,
    pub domain: Domain,
    pub policy: IdlePolicy,
}

/// The events that were pending when a tick began.
#[derive(Clone, Copy, Debug, PartialEq, Eq, Structural)]
pub struct Input {
    pub reset: bool,
    pub exit: bool,
}

/// What a tick did.
#[derive(Debug, PartialEq, Eq)]
pub enum TickOutcome {
    /// Both populations were regenerated; no sample is assigned.
    Reset,
    /// The loop ends; nothing was changed.
    Exit,
    /// Samples were assigned and means updated; holds, for each sample,
    /// the index of the mean it chose.
    Stepped(Vec<usize>),
}

/// The samples, the means and the generator that moves them.
pub struct SimulationState {
    config: Config,
    samples: Vec<Sample>,
    means: Vec<Mean>,
    rng: RandomSource,
}

/// The mathematical content of a simulation.
pub struct SimulationView {
    pub config: Config,
    pub samples: Seq<Sample>,
    pub means: Seq<Mean>,
}

impl View for SimulationState {
    type V = SimulationView;

    closed spec fn view(&self) -> SimulationView {
        SimulationView { config: self.config, samples: self.samples@, means: self.means@ }
    }
}

impl SimulationView {
    /// Both populations have their configured sizes, there is a mean to
    /// choose, and every sample lies inside the domain.
    pub open spec fn wf(self) -> bool {
        &&& self.samples.len() == self.config.sample_count.0
        &&& self.means.len() == self.config.mean_count.0
        &&& self.means.len() > 0
        &&& samples_within(self.samples, self.config.domain)
    }

    /// The state right after generation: well formed, every mean inside
    /// the domain and never idle.
    pub open spec fn fresh(self) -> bool {
        &&& self.wf()
        &&& means_fresh(self.means, self.config.domain)
    }
}

impl SimulationState {
    /// Generates both populations from the generator seeded with `seed`;
    /// refuses a configuration without means.
    pub fn new(config: Config, seed: u64) -> (created: Result<Self, ConfigError>)
        ensures
            created is Err <==> config.mean_count.0 == 0,
            created is Err ==> created->Err_0 == ConfigError::NoMeans,
            created is Ok ==> created->Ok_0@.config == config && created->Ok_0@.fresh(),
    {
        let mut rng: RandomSource = RandomSource::from_seed(seed);
        if config.mean_count.0 == 0 {
            return Err(ConfigError::NoMeans);
        }
        let samples: Vec<Sample> = generate_samples(&config.sample_count, &config.domain, &mut rng);
        match generate_means(&config.mean_count, &config.domain, &mut rng) {
            Ok(means) => Ok(SimulationState { config, samples, means, rng }),
            Err(error) => Err(error),
        }
    }

    pub fn config(&self) -> (config: &Config)
        ensures
            *config == self@.config,
    {
        &self.config
    }

    pub fn samples(&self) -> (samples: &Vec<Sample>)
        ensures
            samples@ == self@.samples,
    {
        &self.samples
    }

    pub fn means(&self) -> (means: &Vec<Mean>)
        ensures
            means@ == self@.means,
    {
        &self.means
    }

    /// Tells whether the state is well formed, as every state is that `new`
    /// returned and that only the methods below have touched.
    pub fn is_valid(&self) -> (valid: bool)
        ensures
            valid == self@.wf(),
    {
        if self.samples.len() != self.config.sample_count.0 || self.means.len() != self.config.mean_count.0
            || self.means.len() == 0 {
            return false;
        }
        let mut i: usize = 0;
        while i < self.samples.len()
            invariant
                i <= self.samples.len(),
                forall|k: int|
                    0 <= k < i ==> self.config.domain.contains(
                        (#[trigger] self.samples@[k]).x as int,
                        self.samples@[k].y as int,
                    ),
            decreases self.samples.len() - i,
        {
            if !self.config.domain.holds(self.samples[i].x, self.samples[i].y) {
                return false;
            }
            i += 1;
        }
        true
    }

    /// Takes a population generated elsewhere in place of the samples, if
    /// it has the configured size and lies inside the domain; otherwise
    /// nothing changes.
    pub fn replace_samples(&mut self, samples: Vec<Sample>) -> (accepted: bool)
        requires
            old(self)@.wf(),
        ensures
            accepted <==> samples.len() == old(self)@.config.sample_count.0 && samples_within(
                samples@,
                old(self)@.config.domain,
            ),
            accepted ==> final(self)@ == (SimulationView { samples: samples@, ..old(self)@ }),
            !accepted ==> final(self)@ == old(self)@,
    {
        if samples.len() != self.config.sample_count.0 {
            return false;
        }
        let mut i: usize = 0;
        while i < samples.len()
            invariant
                i <= samples.len(),
                *self == *old(self),
                forall|k: int|
                    0 <= k < i ==> self.config.domain.contains((#[trigger] samples@[k]).x as int, samples@[k].y as int),
            decreases samples.len() - i,
        {
            if !self.config.domain.holds(samples[i].x, samples[i].y) {
                return false;
            }
            i += 1;
        }
        self.samples = samples;
        true
    }

    /// Regenerates both populations with their configured sizes and clears
    /// every idle count.
    pub fn reset(&mut self)
        requires
            old(self)@.wf(),
        ensures
            final(self)@.config == old(self)@.config,
            final(self)@.samples.len() == old(self)@.samples.len(),
            final(self)@.means.len() == old(self)@.means.len(),
            final(self)@.fresh(),
    {
        reset_samples(&mut self.samples, &self.config.domain, &mut self.rng);
        reset_means(&mut self.means, &self.config.domain, &mut self.rng);
    }

    /// Assigns every sample to its nearest mean, then updates the means.
    /// Returns the assignment.
    pub fn step(&mut self) -> (assignment: Vec<usize>)
        requires
            old(self)@.wf(),
        ensures
            final(self)@.wf(),
            final(self)@.config == old(self)@.config,
            final(self)@.samples == old(self)@.samples,
            final(self)@.means.len() == old(self)@.means.len(),
            is_assignment(old(self)@.samples, old(self)@.means, assignment@),
            is_update(
                old(self)@.samples,
                assignment@,
                old(self)@.means,
                final(self)@.means,
                old(self)@.config.policy,
                old(self)@.config.domain,
            ),
    {
        let assignment: Vec<usize> = assign(&self.samples, &self.means);
        update(&self.samples, &mut self.means, &assignment, &self.config.policy, &self.config.domain, &mut self.rng);
        assignment
    }

    /// One frame of the simulation. A pending reset supersedes everything
    /// else; otherwise a pending exit ends the loop and leaves the state
    /// alone; otherwise the simulation steps.
    pub fn tick(&mut self, input: Input) -> (outcome: TickOutcome)
        requires
            old(self)@.wf(),
        ensures
            final(self)@.wf(),
            final(self)@.config == old(self)@.config,
            final(self)@.samples.len() == old(self)@.samples.len(),
            final(self)@.means.len() == old(self)@.means.len(),
            input.reset ==> outcome is Reset && final(self)@.fresh(),
            !input.reset && input.exit ==> outcome is Exit && final(self)@ == old(self)@,
            !input.reset && !input.exit ==> {
                &&& outcome is Stepped
                &&& final(self)@.samples == old(self)@.samples
                &&& is_assignment(old(self)@.samples, old(self)@.means, outcome->Stepped_0@)
                &&& is_update(
                    old(self)@.samples,
                    outcome->Stepped_0@,
                    old(self)@.means,
                    final(self)@.means,
                    old(self)@.config.policy,
                    old(self)@.config.domain,
                )
            },
    {
        if input.reset {
            self.reset();
            TickOutcome::Reset
        } else if input.exit {
            TickOutcome::Exit
        } else {
            TickOutcome::Stepped(self.step())
        }
    }

    /// What is to be drawn after a tick with the given outcome: nothing
    /// after an exit, otherwise every sample and every mean, the samples
    /// neutral after a reset and in the paint of their means after a step.
    pub fn publish(&self, outcome: &TickOutcome) -> (updates: Vec<RenderUpdate>)
        requires
            outcome is Stepped ==> outcome->Stepped_0.len() == self@.samples.len(),
        ensures
            outcome is Exit ==> updates.len() == 0,
            outcome is Reset ==> is_frame(updates@, self@.samples, self@.means, None),
            outcome is Stepped ==> is_frame(updates@, self@.samples, self@.means, Some(outcome->Stepped_0@)),
    {
        match outcome {
            TickOutcome::Exit => Vec::new(),
            TickOutcome::Reset => frame(&self.samples, &self.means, None),
            TickOutcome::Stepped(assignment) => frame(&self.samples, &self.means, Some(assignment)),
        }
    }
}

} // verus!
