//! Behaviours that think once per tick while they are due.
use vstd::prelude::*;

use crate::physics::Timed;
use crate::time::DirectedTime;

verus! {

/// A behaviour kind whose per-tick update runs for each due entity that carries it.
pub trait Brain {
    /// The update of `entity` for a tick in which time moved by `delta`.
    fn think(&mut self, delta: DirectedTime, entity: u32);
}

/// The behaviour of the entity that the player controls; its moves come from
/// the player's intents, so its own update does nothing.
#[derive(Debug)]
pub struct PlayerBrain {}

impl Brain for PlayerBrain {
    fn think(&mut self, delta: DirectedTime, entity: u32) {
    }
}

impl Timed for PlayerBrain {}

} // verus!
