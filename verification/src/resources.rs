//! What a simulation is configured with.

use vstd::prelude::*;

verus! {

/// How many samples the population holds.
#[derive(Clone, Copy, Debug, PartialEq, Eq, Structural)]
pub struct SampleCount(pub usize);

/// How many means the samples are partitioned around.
#[derive(Clone, Copy, Debug, PartialEq, Eq, Structural)]
pub struct MeanCount(pub usize);

/// The rectangle, centred on the origin, inside which positions are
/// generated: `[-width / 2, width / 2] x [-height / 2, height / 2]`.
#[derive(Clone, Copy, Debug, PartialEq, Eq, Structural)]
pub struct Domain {
    pub width: u32,
    pub height: u32,
}

impl Domain {
    pub open spec fn half_width(self) -> int {
        self.width as int / 2
    }

    pub open spec fn half_height(self) -> int {
        self.height as int / 2
    }

    /// The point `(x, y)` lies inside the rectangle, borders included.
    pub open spec fn contains(self, x: int, y: int) -> bool {
        &&& -self.half_width() <= x <= self.half_width()
        &&& -self.half_height() <= y <= self.half_height()
    }

    pub fn new(width: u32, height: u32) -> (domain: Self)
        ensures
            domain == (Domain { width, height }),
    {
        Self { width, height }
    }

    pub fn max_x(&self) -> (half: i32)
        ensures
            half == self.half_width(),
    {
        (self.width / 2) as i32
    }

    pub fn max_y(&self) -> (half: i32)
        ensures
            half == self.half_height(),
    {
        (self.height / 2) as i32
    }

    pub fn holds(&self, x: i32, y: i32) -> (inside: bool)
        ensures
            inside == self.contains(x as int, y as int),
    {
        let half_w: i32 = self.max_x();
        let half_h: i32 = self.max_y();
        -half_w <= x && x <= half_w && -half_h <= y && y <= half_h
    }
}

/// What becomes of a mean that no sample chose.
///
/// While its idle count is below `stagnation_threshold` the mean is moved to
/// a fresh random position; from then on it is parked at
/// `(park_x, park_y)` until a sample chooses it again.
#[derive(Clone, Copy, Debug, PartialEq, Eq, Structural)]
pub struct IdlePolicy {
    pub stagnation_threshold: u32,
    pub park_x: i32,
    pub park_y: i32,
}

/// After this many idle ticks a mean is parked unless told otherwise.
pub const STAGNATION_THRESHOLD: u32 = 50;

/// Where a stagnant mean is parked unless told otherwise: the middle of a
/// reference rectangle of 1920 by 1080, whatever the domain is.
pub const PARK_X: i32 = 960;

pub const PARK_Y: i32 = 540;

impl Default for IdlePolicy {
    fn default() -> (policy: Self)
        ensures
            policy == (IdlePolicy { stagnation_threshold: STAGNATION_THRESHOLD, park_x: PARK_X, park_y: PARK_Y }),
    {
        Self { stagnation_threshold: STAGNATION_THRESHOLD, park_x: PARK_X, park_y: PARK_Y }
    }
}

impl IdlePolicy {
    pub fn new(stagnation_threshold: u32, park_x: i32, park_y: i32) -> (policy: Self)
        ensures
            policy == (IdlePolicy { stagnation_threshold, park_x, park_y }),
    {
        Self { stagnation_threshold, park_x, park_y }
    }
}

} // verus!
