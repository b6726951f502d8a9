//! The two kinds of point that the simulation moves around.

use vstd::prelude::*;

verus! {

/// A point being clustered, in grid units.
#[derive(Clone, Copy, Debug, PartialEq, Eq, Structural)]
pub struct Sample {
    pub x: i32,
    pub y: i32,
}

impl Sample {
    pub fn new(x: i32, y: i32) -> (sample: Self)
        ensures
            sample == (Sample { x, y }),
    {
        Self { x, y }
    }
}

/// The current centre of one cluster.
///
/// `last_tick` counts the consecutive ticks in which no sample chose this
/// mean; it is zero after every tick in which at least one did.
#[derive(Clone, Copy, Debug, PartialEq, Eq, Structural)]
pub struct Mean {
    pub x: i32,
    pub y: i32,
    pub last_tick: u32,
}

impl Mean {
    pub fn new(x: i32, y: i32, last_tick: u32) -> (mean: Self)
        ensures
            mean == (Mean { x, y, last_tick }),
    {
        Self { x, y, last_tick }
    }
}

} // verus!
