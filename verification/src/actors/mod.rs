//! The actors of the game: the player's ship, the enemies and the bullets.

pub mod bullet;
pub mod enemy;
pub mod player;
