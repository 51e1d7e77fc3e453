//! Simulation core of a vertical arcade shooter: a player's ship, enemies
//! that cross the screen, bullets, and the collisions between bullets and
//! enemies.
//!
//! The simulation is exact. Positions are whole pixels, time is whole
//! nanoseconds, and speeds, scales and rotations carry three decimal places
//! as integers; see [`engine::motion`]. Every type has a mathematical view,
//! and every function says in its contract what it does to that view.
//!
//! [`engine::state::State`] holds a game and runs it a frame at a time. It
//! touches neither window nor GPU nor clock: it is handed the time that has
//! passed and the keys that were pressed, and hands back the list of sprites
//! to paint. The one thing it takes from outside is chance, for where the
//! next enemy appears.

use vstd::prelude::*;

pub mod actors;
pub mod engine;

verus! {

/// Handle for the game as a whole.
pub struct Shmup {}

impl Shmup {
    /// Per-frame hook of the game handle. The handle holds no state, so a
    /// frame leaves nothing to change.
    pub fn update() {
    }
}

} // verus!
