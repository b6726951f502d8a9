//! Iterative k-means clustering of points on an integer grid.
//!
//! A population of samples is repeatedly partitioned around a small set of
//! moving means. Every coordinate is a whole number of grid units, so that
//! distances, sums and averages are exact and every rule of the simulation
//! can be stated and proved over the integers.

pub mod components;
pub mod resources;
pub mod random;
pub mod assign;
pub mod update;
pub mod generate;
pub mod simulation;
pub mod laws;
pub mod render;
