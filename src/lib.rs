//! A directed simulation clock and the per-kind schedules of the actions it drives.
use vstd::prelude::*;

pub mod duration;
pub mod time;
pub mod laws;
pub mod schedule;
pub mod physics;
pub mod command;
pub mod keymod;
pub mod brains;
pub mod visual;
pub mod input;

verus! {

} // verus!
