//! A deterministic, tick-based melee arena for two fighters.
//!
//! Every real-valued quantity (lengths in blocks, speeds in blocks per tick,
//! angles in degrees, health, food, rewards, observation entries) is a
//! fixed-point `i64` counting millionths, so that a run is reproducible bit
//! for bit on every machine. Arithmetic that could leave the `i64` range
//! saturates; no function of the crate fails or panics.
//!
//! The modules, leaves first:
//!
//! * `fixed`, `trig`: fixed-point arithmetic and integer trigonometry;
//! * `params`: the named simulation parameters;
//! * `fighter`, `arena`: the state of a fighter and of a match;
//! * `movement`, `combat`, `eating`: what one tick does to a fighter;
//! * `step`: one tick of a match, its rewards and its outcome;
//! * `observation`: the match as a vector of numbers, for either side;
//! * `batch`: many independent matches addressed by index;
//! * `controls`: the walk command that stands for an action's intents;
//! * `laws`: what holds of every match, proved.

pub mod fixed;
pub mod trig;
pub mod params;
pub mod fighter;
pub mod arena;
pub mod movement;
pub mod combat;
pub mod eating;
pub mod step;
pub mod observation;
pub mod batch;
pub mod controls;
pub mod laws;
